//! The devices that a discovery found, and walking through them.

use vstd::prelude::*;

use super::FpDevice;

verus! {

/// List of fingerprint devices, lent out by the context that found them.
/// This struct will allow you to iterate over the fingerprint devices.
pub struct DeviceList<'a> {
    list: &'a Vec<FpDevice>,
}

/// Collection of fingerprint devices.
/// This struct will allow you to iterate with the fingerprint devices
/// available in the system.
///
/// To get an iterator of the devices, use the `iter` method.
pub struct Devices<'a> {
    devices: &'a Vec<FpDevice>,
    index: usize,
}

impl<'a> View for DeviceList<'a> {
    type V = Seq<FpDevice>;

    closed spec fn view(&self) -> Seq<FpDevice> {
        self.list@
    }
}

impl<'a> Devices<'a> {
    /// All the devices of the walk, in the order of the list.
    pub closed spec fn all(self) -> Seq<FpDevice> {
        self.devices@
    }

    /// How many devices the walk has handed out.
    pub closed spec fn position(self) -> int {
        self.index as int
    }

    /// The walk never runs past the end of its list.
    #[verifier::type_invariant]
    spec fn within_list(self) -> bool {
        self.index <= self.devices@.len()
    }

    /// The next device of the list, or none where the walk has reached the
    /// end; from then on every call gives none.
    pub fn next(&mut self) -> (r: Option<&'a FpDevice>)
        ensures
            final(self).all() == old(self).all(),
            final(self).position() <= final(self).all().len(),
            old(self).position() < old(self).all().len() ==> r == Some(
                &old(self).all()[old(self).position()],
            ) && final(self).position() == old(self).position() + 1,
            old(self).position() >= old(self).all().len() ==> r is None && final(self).position()
                == old(self).position(),
    {
        proof {
            use_type_invariant(&*self);
        }
        if self.index < self.devices.len() {
            let device = &self.devices[self.index];
            self.index += 1;
            Some(device)
        } else {
            None
        }
    }
}

impl<'a> DeviceList<'a> {
    /// The list of the given devices.
    pub fn new(list: &'a Vec<FpDevice>) -> (r: DeviceList<'a>)
        ensures
            r@ == list@,
    {
        DeviceList { list }
    }

    /// The number of devices.
    pub fn len(&self) -> (r: usize)
        ensures
            r == self@.len(),
    {
        self.list.len()
    }

    /// The device at `index`, or none beyond the end of the list.
    pub fn get(&self, index: usize) -> (r: Option<&'a FpDevice>)
        ensures
            index < self@.len() ==> r == Some(&self@[index as int]),
            index >= self@.len() ==> r is None,
    {
        if index < self.list.len() {
            Some(&self.list[index])
        } else {
            None
        }
    }

    /// A walk through the devices that starts at the first.
    pub fn iter(&self) -> (r: Devices<'a>)
        ensures
            r.all() == self@,
            r.position() == 0,
    {
        Devices { devices: self.list, index: 0 }
    }
}

} // verus!
