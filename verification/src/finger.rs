//! The finger a print belongs to.

use vstd::prelude::*;

verus! {

/// Enum representing a finger. This can be used to specify which finger was
/// used to enroll a new print and can be added as part of the print metadata.
#[derive(Debug, Copy, Clone, PartialEq, Eq, Hash, PartialOrd, Ord, Structural)]
pub enum FpFinger {
    Unknown,
    LeftThumb,
    LeftIndex,
    LeftMiddle,
    LeftRing,
    LeftLittle,
    RightThumb,
    RightIndex,
    RightMiddle,
    RightRing,
    RightLittle,
}

impl FpFinger {
    /// The number by which the scanner library knows this finger.
    pub open spec fn raw(self) -> int {
        match self {
            FpFinger::Unknown => 0,
            FpFinger::LeftThumb => 1,
            FpFinger::LeftIndex => 2,
            FpFinger::LeftMiddle => 3,
            FpFinger::LeftRing => 4,
            FpFinger::LeftLittle => 5,
            FpFinger::RightThumb => 6,
            FpFinger::RightIndex => 7,
            FpFinger::RightMiddle => 8,
            FpFinger::RightRing => 9,
            FpFinger::RightLittle => 10,
        }
    }

    /// The finger that the scanner library knows by `value`, if any.
    pub open spec fn of_raw(value: int) -> Option<FpFinger> {
        if value == 0 {
            Some(FpFinger::Unknown)
        } else if value == 1 {
            Some(FpFinger::LeftThumb)
        } else if value == 2 {
            Some(FpFinger::LeftIndex)
        } else if value == 3 {
            Some(FpFinger::LeftMiddle)
        } else if value == 4 {
            Some(FpFinger::LeftRing)
        } else if value == 5 {
            Some(FpFinger::LeftLittle)
        } else if value == 6 {
            Some(FpFinger::RightThumb)
        } else if value == 7 {
            Some(FpFinger::RightIndex)
        } else if value == 8 {
            Some(FpFinger::RightMiddle)
        } else if value == 9 {
            Some(FpFinger::RightRing)
        } else if value == 10 {
            Some(FpFinger::RightLittle)
        } else {
            None
        }
    }

    /// The English name of the finger.
    pub open spec fn name(self) -> Seq<char> {
        match self {
            FpFinger::Unknown => "Unknown"@,
            FpFinger::LeftThumb => "Left Thumb"@,
            FpFinger::LeftIndex => "Left Index"@,
            FpFinger::LeftMiddle => "Left Middle"@,
            FpFinger::LeftRing => "Left Ring"@,
            FpFinger::LeftLittle => "Left Little"@,
            FpFinger::RightThumb => "Right Thumb"@,
            FpFinger::RightIndex => "Right Index"@,
            FpFinger::RightMiddle => "Right Middle"@,
            FpFinger::RightRing => "Right Ring"@,
            FpFinger::RightLittle => "Right Little"@,
        }
    }

    /// Converts a finger number that the scanner library reported. Only the
    /// numbers of the eleven fingers are taken.
    pub fn from(value: u32) -> (finger: FpFinger)
        requires
            value <= 10,
        ensures
            Self::of_raw(value as int) == Some(finger),
            finger.raw() == value,
    {
        match value {
            0 => FpFinger::Unknown,
            1 => FpFinger::LeftThumb,
            2 => FpFinger::LeftIndex,
            3 => FpFinger::LeftMiddle,
            4 => FpFinger::LeftRing,
            5 => FpFinger::LeftLittle,
            6 => FpFinger::RightThumb,
            7 => FpFinger::RightIndex,
            8 => FpFinger::RightMiddle,
            9 => FpFinger::RightRing,
            _ => FpFinger::RightLittle,
        }
    }

    /// Converts a signed finger number; a negative number or one beyond the
    /// last finger is rejected.
    pub fn try_from(value: i32) -> (r: Result<FpFinger, ()>)
        ensures
            r == match Self::of_raw(value as int) {
                Some(finger) => Ok::<FpFinger, ()>(finger),
                None => Err(()),
            },
    {
        if value < 0 {
            return Err(());
        }
        match value {
            0 => Ok(FpFinger::Unknown),
            1 => Ok(FpFinger::LeftThumb),
            2 => Ok(FpFinger::LeftIndex),
            3 => Ok(FpFinger::LeftMiddle),
            4 => Ok(FpFinger::LeftRing),
            5 => Ok(FpFinger::LeftLittle),
            6 => Ok(FpFinger::RightThumb),
            7 => Ok(FpFinger::RightIndex),
            8 => Ok(FpFinger::RightMiddle),
            9 => Ok(FpFinger::RightRing),
            10 => Ok(FpFinger::RightLittle),
            _ => Err(()),
        }
    }

    /// The text shown for this finger.
    pub fn to_string(&self) -> (s: String)
        ensures
            s@ == self.name(),
    {
        let text: &str = match self {
            FpFinger::Unknown => "Unknown",
            FpFinger::LeftThumb => "Left Thumb",
            FpFinger::LeftIndex => "Left Index",
            FpFinger::LeftMiddle => "Left Middle",
            FpFinger::LeftRing => "Left Ring",
            FpFinger::LeftLittle => "Left Little",
            FpFinger::RightThumb => "Right Thumb",
            FpFinger::RightIndex => "Right Index",
            FpFinger::RightMiddle => "Right Middle",
            FpFinger::RightRing => "Right Ring",
            FpFinger::RightLittle => "Right Little",
        };
        text.to_owned()
    }

    /// Every finger is found again from its number, and a number names at
    /// most the finger that carries it.
    pub proof fn lemma_raw_round_trip(finger: FpFinger, value: int)
        ensures
            Self::of_raw(finger.raw()) == Some(finger),
            0 <= finger.raw() <= 10,
            Self::of_raw(value) == Some(finger) <==> value == finger.raw(),
            Self::of_raw(value) is Some <==> 0 <= value <= 10,
    {
    }
}

impl From<FpFinger> for i32 {
    fn from(finger: FpFinger) -> (raw: i32) {
        match finger {
            FpFinger::Unknown => 0,
            FpFinger::LeftThumb => 1,
            FpFinger::LeftIndex => 2,
            FpFinger::LeftMiddle => 3,
            FpFinger::LeftRing => 4,
            FpFinger::LeftLittle => 5,
            FpFinger::RightThumb => 6,
            FpFinger::RightIndex => 7,
            FpFinger::RightMiddle => 8,
            FpFinger::RightRing => 9,
            FpFinger::RightLittle => 10,
        }
    }
}

impl vstd::std_specs::convert::FromSpecImpl<FpFinger> for i32 {
    open spec fn obeys_from_spec() -> bool {
        true
    }

    open spec fn from_spec(finger: FpFinger) -> i32 {
        finger.raw() as i32
    }
}

} // verus!
