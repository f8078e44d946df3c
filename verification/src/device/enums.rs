//! Plain enumerations reported by a scanner.

use vstd::prelude::*;

verus! {

/// The scan type of the device.
#[derive(Debug, Clone, Copy, PartialEq, Eq, Structural)]
pub enum FpScanType {
    /// The finger is drawn over the sensor.
    Swipe,
    /// The finger is laid on the sensor.
    Press,
}

impl FpScanType {
    /// The number by which the scanner library knows this scan type.
    pub open spec fn raw(self) -> int {
        match self {
            FpScanType::Swipe => 0,
            FpScanType::Press => 1,
        }
    }

    /// Converts a scan type number that the scanner library reported; any
    /// number but those of the two scan types is rejected.
    pub fn try_from(raw: u32) -> (r: Result<Self, ()>)
        ensures
            r matches Ok(scan_type) ==> scan_type.raw() == raw,
            r is Err <==> raw > 1,
    {
        match raw {
            0 => Ok(FpScanType::Swipe),
            1 => Ok(FpScanType::Press),
            _ => Err(()),
        }
    }
}

/// The finger status flags for the device.
#[derive(Debug, Clone, Copy, PartialEq, Eq, Structural)]
pub enum FpFingerStatus {
    /// No finger is asked for and none is on the sensor.
    NoStatus,
    /// The sensor waits for a finger.
    Needed,
    /// A finger is on the sensor.
    Present,
}

impl FpFingerStatus {
    /// The flag value by which the scanner library knows this status.
    pub open spec fn raw(self) -> int {
        match self {
            FpFingerStatus::NoStatus => 0,
            FpFingerStatus::Needed => 1,
            FpFingerStatus::Present => 2,
        }
    }

    /// Converts a status value that the scanner library reported. A value
    /// that is none of the three single states, such as both flags at once,
    /// is rejected.
    pub fn try_from(raw: u32) -> (r: Result<Self, ()>)
        ensures
            r matches Ok(status) ==> status.raw() == raw,
            r is Err <==> raw > 2,
    {
        match raw {
            0 => Ok(FpFingerStatus::NoStatus),
            1 => Ok(FpFingerStatus::Needed),
            2 => Ok(FpFingerStatus::Present),
            _ => Err(()),
        }
    }
}

/// A capability that a scanner may advertise; each is one bit of the
/// capability mask.
#[derive(Debug, Clone, Copy, PartialEq, Eq, Structural)]
pub enum FpDeviceFeature {
    /// Device does not support any feature
    NoFeature,
    /// Supports image capture
    Capture,
    /// Supports finger identification
    Identify,
    /// Supports finger verification
    Verify,
    /// Device has a persistent storage
    Storage,
    /// Supports listing the storage templates
    StorageList,
    /// Supports deleting stored templates
    StorageDelete,
    /// Supports clearing the whole storage
    StorageClear,
    /// Natively supports duplicates detection
    DuplicatesCheck,
    /// Whether the device can run continuously
    AlwaysOn,
    /// Supports updating an existing print record using new scans
    UpdatePrint,
}

impl FpDeviceFeature {
    /// The mask value of this capability.
    pub open spec fn bits(self) -> u32 {
        match self {
            FpDeviceFeature::NoFeature => 0,
            FpDeviceFeature::Capture => 1,
            FpDeviceFeature::Identify => 2,
            FpDeviceFeature::Verify => 4,
            FpDeviceFeature::Storage => 8,
            FpDeviceFeature::StorageList => 16,
            FpDeviceFeature::StorageDelete => 32,
            FpDeviceFeature::StorageClear => 64,
            FpDeviceFeature::DuplicatesCheck => 128,
            FpDeviceFeature::AlwaysOn => 256,
            FpDeviceFeature::UpdatePrint => 512,
        }
    }

    /// The position of this capability's bit in the mask; `NoFeature` has no
    /// bit and stands before all of them.
    pub open spec fn position(self) -> int {
        match self {
            FpDeviceFeature::NoFeature => -1,
            FpDeviceFeature::Capture => 0,
            FpDeviceFeature::Identify => 1,
            FpDeviceFeature::Verify => 2,
            FpDeviceFeature::Storage => 3,
            FpDeviceFeature::StorageList => 4,
            FpDeviceFeature::StorageDelete => 5,
            FpDeviceFeature::StorageClear => 6,
            FpDeviceFeature::DuplicatesCheck => 7,
            FpDeviceFeature::AlwaysOn => 8,
            FpDeviceFeature::UpdatePrint => 9,
        }
    }

    /// Whether a scanner with the capability mask `mask` has this
    /// capability. `NoFeature` holds of the empty mask alone.
    pub open spec fn is_set_in(self, mask: u32) -> bool {
        if self == FpDeviceFeature::NoFeature {
            mask == 0
        } else {
            mask & self.bits() != 0
        }
    }

    /// Whether `list` names the capabilities of `mask`: each capability that
    /// is set and no other, by rising mask value, so none twice.
    pub open spec fn listing(mask: u32, list: Seq<FpDeviceFeature>) -> bool {
        &&& forall|f: FpDeviceFeature| #[trigger] list.contains(f) <==> f.is_set_in(mask)
        &&& forall|i: int, j: int|
            0 <= i < j < list.len() ==> (#[trigger] list[i]).bits() < (#[trigger] list[j]).bits()
    }

    /// The capability whose mask value is exactly `n`, if there is one.
    pub open spec fn from_bits(n: u32) -> Option<FpDeviceFeature> {
        if n == 0 {
            Some(FpDeviceFeature::NoFeature)
        } else if n == 1 {
            Some(FpDeviceFeature::Capture)
        } else if n == 2 {
            Some(FpDeviceFeature::Identify)
        } else if n == 4 {
            Some(FpDeviceFeature::Verify)
        } else if n == 8 {
            Some(FpDeviceFeature::Storage)
        } else if n == 16 {
            Some(FpDeviceFeature::StorageList)
        } else if n == 32 {
            Some(FpDeviceFeature::StorageDelete)
        } else if n == 64 {
            Some(FpDeviceFeature::StorageClear)
        } else if n == 128 {
            Some(FpDeviceFeature::DuplicatesCheck)
        } else if n == 256 {
            Some(FpDeviceFeature::AlwaysOn)
        } else if n == 512 {
            Some(FpDeviceFeature::UpdatePrint)
        } else {
            None
        }
    }

    /// Converts a mask value that names exactly one capability; any other
    /// value is rejected.
    pub fn try_from(n: u32) -> (r: Result<Self, ()>)
        ensures
            r == match Self::from_bits(n) {
                Some(f) => Ok::<Self, ()>(f),
                None => Err(()),
            },
    {
        match n {
            0 => Ok(FpDeviceFeature::NoFeature),
            1 => Ok(FpDeviceFeature::Capture),
            2 => Ok(FpDeviceFeature::Identify),
            4 => Ok(FpDeviceFeature::Verify),
            8 => Ok(FpDeviceFeature::Storage),
            16 => Ok(FpDeviceFeature::StorageList),
            32 => Ok(FpDeviceFeature::StorageDelete),
            64 => Ok(FpDeviceFeature::StorageClear),
            128 => Ok(FpDeviceFeature::DuplicatesCheck),
            256 => Ok(FpDeviceFeature::AlwaysOn),
            512 => Ok(FpDeviceFeature::UpdatePrint),
            _ => Err(()),
        }
    }
}

/// Two lists of the capabilities of one mask agree up to `upto`.
proof fn lemma_listing_prefix(
    mask: u32,
    a: Seq<FpDeviceFeature>,
    b: Seq<FpDeviceFeature>,
    upto: int,
)
    requires
        FpDeviceFeature::listing(mask, a),
        FpDeviceFeature::listing(mask, b),
        0 <= upto <= a.len(),
        upto <= b.len(),
    ensures
        forall|i: int| 0 <= i < upto ==> a[i] == b[i],
    decreases upto,
{
    if upto > 0 {
        let k = upto - 1;
        lemma_listing_prefix(mask, a, b, k);
        assert(a.contains(a[k]));
        assert(b.contains(a[k]));
        assert(b.contains(b[k]));
        assert(a.contains(b[k]));
    }
}

/// A capability mask has one list of capabilities and no other: what
/// `listing` says of a list settles the list.
pub proof fn lemma_listing_unique(mask: u32, a: Seq<FpDeviceFeature>, b: Seq<FpDeviceFeature>)
    requires
        FpDeviceFeature::listing(mask, a),
        FpDeviceFeature::listing(mask, b),
    ensures
        a == b,
{
    if a.len() <= b.len() {
        lemma_listing_prefix(mask, a, b, a.len() as int);
        if a.len() < b.len() {
            let extra = b[a.len() as int];
            assert(b.contains(extra));
            assert(a.contains(extra));
        }
    } else {
        lemma_listing_prefix(mask, a, b, b.len() as int);
        let extra = a[b.len() as int];
        assert(a.contains(extra));
        assert(b.contains(extra));
    }
}

/// The single bit at `position` is the mask value of the capability at that
/// position and of no other, and beyond the last capability it names none.
pub proof fn lemma_single_bit(position: u32)
    requires
        position < 32,
    ensures
        (1u32 << position) != 0,
        FpDeviceFeature::from_bits(1u32 << position) matches Some(f) ==> f.position()
            == position,
        position < 10 ==> FpDeviceFeature::from_bits(1u32 << position) is Some,
        forall|f: FpDeviceFeature| f.position() == position ==> f.bits() == 1u32 << position,
{
    let bit = 1u32 << position;
    assert(bit != 0) by (bit_vector)
        requires
            position < 32,
            bit == 1u32 << position,
    ;
    assert(bit == 1 <==> position == 0) by (bit_vector)
        requires
            position < 32,
            bit == 1u32 << position,
    ;
    assert(bit == 2 <==> position == 1) by (bit_vector)
        requires
            position < 32,
            bit == 1u32 << position,
    ;
    assert(bit == 4 <==> position == 2) by (bit_vector)
        requires
            position < 32,
            bit == 1u32 << position,
    ;
    assert(bit == 8 <==> position == 3) by (bit_vector)
        requires
            position < 32,
            bit == 1u32 << position,
    ;
    assert(bit == 16 <==> position == 4) by (bit_vector)
        requires
            position < 32,
            bit == 1u32 << position,
    ;
    assert(bit == 32 <==> position == 5) by (bit_vector)
        requires
            position < 32,
            bit == 1u32 << position,
    ;
    assert(bit == 64 <==> position == 6) by (bit_vector)
        requires
            position < 32,
            bit == 1u32 << position,
    ;
    assert(bit == 128 <==> position == 7) by (bit_vector)
        requires
            position < 32,
            bit == 1u32 << position,
    ;
    assert(bit == 256 <==> position == 8) by (bit_vector)
        requires
            position < 32,
            bit == 1u32 << position,
    ;
    assert(bit == 512 <==> position == 9) by (bit_vector)
        requires
            position < 32,
            bit == 1u32 << position,
    ;
}

} // verus!
