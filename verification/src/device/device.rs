//! What a scanner tells of itself.

use vstd::prelude::*;

use super::enums::{lemma_single_bit, FpDeviceFeature, FpFingerStatus, FpScanType};
use super::FpDevice;

verus! {

impl FpDevice {
    /// The ID of the driver.
    pub fn driver(&self) -> (r: String)
        ensures
            r@ == self.driver@,
    {
        self.driver.clone()
    }

    /// The ID of the device.
    pub fn device_id(&self) -> (r: String)
        ensures
            r@ == self.device_id@,
    {
        self.device_id.clone()
    }

    /// The human readable name of the device.
    pub fn name(&self) -> (r: String)
        ensures
            r@ == self.name@,
    {
        self.name.clone()
    }

    /// Retrieves the scan type of the device. The device has to report one
    /// of the two scan types.
    pub fn scan_type(&self) -> (r: FpScanType)
        requires
            self.scan_type <= 1,
        ensures
            r.raw() == self.scan_type,
    {
        match self.scan_type {
            1 => FpScanType::Press,
            _ => FpScanType::Swipe,
        }
    }

    /// Retrieves the number of enroll stages for this device.
    pub fn nr_enroll_stage(&self) -> (r: i32)
        ensures
            r == self.nr_enroll_stages,
    {
        self.nr_enroll_stages
    }

    /// Retrieves the finger status flags for the device. This can be used
    /// by the UI to present the relevant feedback, although it is not
    /// guaranteed to be a relevant value when not performing any action. The
    /// device has to report one of the three single states, not both flags
    /// at once.
    pub fn finger_status(&self) -> (r: FpFingerStatus)
        requires
            self.finger_status <= 2,
        ensures
            r.raw() == self.finger_status,
    {
        match self.finger_status {
            0 => FpFingerStatus::NoStatus,
            1 => FpFingerStatus::Needed,
            _ => FpFingerStatus::Present,
        }
    }

    /// Gets the capabilities supported by the device: `NoFeature` alone for
    /// the empty mask, else each capability whose bit is set, by rising bit.
    /// Bits that name no capability are passed over.
    pub fn features(&self) -> (r: Vec<FpDeviceFeature>)
        ensures
            FpDeviceFeature::listing(self.features, r@),
    {
        let mut features: Vec<FpDeviceFeature> = Vec::new();
        let x: u32 = self.features;
        if x == 0 {
            features.push(FpDeviceFeature::NoFeature);
            proof {
                assert(features@[0] == FpDeviceFeature::NoFeature);
                assert forall|f: FpDeviceFeature| #[trigger]
                    features@.contains(f) <==> f.is_set_in(x) by {
                    let b = f.bits();
                    assert(0u32 & b == 0) by (bit_vector);
                }
            }
            return features;
        }
        let mut i: u32 = 0;
        while i < 31
            invariant
                i <= 31,
                x == self.features,
                x != 0,
                forall|f: FpDeviceFeature| #[trigger]
                    features@.contains(f) <==> (0 <= f.position() < i && x & f.bits() != 0),
                forall|k: int|
                    0 <= k < features.len() ==> 0 <= (#[trigger] features[k]).position() < i,
                forall|a: int, b: int|
                    0 <= a < b < features.len() ==> (#[trigger] features[a]).position() < (
                    #[trigger] features[b]).position(),
            decreases 31 - i,
        {
            let mask: u32 = 1u32 << i;
            let ghost before = features@;
            proof {
                lemma_single_bit(i);
                assert(mask & x == x & mask) by (bit_vector);
            }
            if (mask & x) > 0 {
                if let Ok(feature) = FpDeviceFeature::try_from(mask) {
                    features.push(feature);
                    proof {
                        assert(features@[before.len() as int] == feature);
                        assert forall|f: FpDeviceFeature| #[trigger]
                            features@.contains(f) <==> (0 <= f.position() < i + 1 && x & f.bits()
                                != 0) by {
                            if before.contains(f) {
                                let k = choose|k: int| 0 <= k < before.len() && before[k] == f;
                                assert(features@[k] == f);
                            }
                        }
                    }
                }
            }
            i += 1;
        }
        proof {
            assert forall|a: int, b: int| 0 <= a < b < features.len() implies (
            #[trigger] features[a]).bits() < (#[trigger] features[b]).bits() by {
                assert(features[a].position() < features[b].position());
            }
        }
        features
    }

    /// Checks if device supports the requested capability.
    pub fn has_feature(&self, feature: FpDeviceFeature) -> (r: bool)
        ensures
            r == feature.is_set_in(self.features),
    {
        match feature {
            FpDeviceFeature::NoFeature => self.features == 0,
            FpDeviceFeature::Capture => self.features & 1 != 0,
            FpDeviceFeature::Identify => self.features & 2 != 0,
            FpDeviceFeature::Verify => self.features & 4 != 0,
            FpDeviceFeature::Storage => self.features & 8 != 0,
            FpDeviceFeature::StorageList => self.features & 16 != 0,
            FpDeviceFeature::StorageDelete => self.features & 32 != 0,
            FpDeviceFeature::StorageClear => self.features & 64 != 0,
            FpDeviceFeature::DuplicatesCheck => self.features & 128 != 0,
            FpDeviceFeature::AlwaysOn => self.features & 256 != 0,
            FpDeviceFeature::UpdatePrint => self.features & 512 != 0,
        }
    }

    /// A capability is in the list of `features` exactly if `has_feature`
    /// confirms it.
    pub proof fn lemma_features_agree(
        mask: u32,
        list: Seq<FpDeviceFeature>,
        feature: FpDeviceFeature,
    )
        requires
            FpDeviceFeature::listing(mask, list),
        ensures
            list.contains(feature) <==> feature.is_set_in(mask),
    {
    }

    /// Whether the device is open or not
    pub fn is_open(&self) -> (r: bool)
        ensures
            r == self.open,
    {
        self.open
    }
}

} // verus!
