//! Images that a scanner captured.

use vstd::prelude::*;

verus! {

/// Struct representing an image of a fingerprint, as the values read from
/// it. Not all devices support this feature.
#[derive(Debug, Clone, PartialEq, Eq)]
pub struct FpImage {
    /// The pixel width.
    pub width: u32,
    /// The pixel height.
    pub height: u32,
    /// The greyscale data.
    pub data: Vec<u8>,
    /// The binarized data.
    pub binarized: Vec<u8>,
}

/// An `FpImage` as mathematical values.
pub struct FpImageView {
    pub width: u32,
    pub height: u32,
    pub data: Seq<u8>,
    pub binarized: Seq<u8>,
}

impl View for FpImage {
    type V = FpImageView;

    open spec fn view(&self) -> FpImageView {
        FpImageView {
            width: self.width,
            height: self.height,
            data: self.data@,
            binarized: self.binarized@,
        }
    }
}

/// The view of an image that may be absent.
pub open spec fn image_view(image: Option<FpImage>) -> Option<FpImageView> {
    match image {
        Some(i) => Some(i@),
        None => None,
    }
}

impl FpImage {
    /// An image of the given size that holds no pixels yet.
    pub fn new(width: u32, height: u32) -> (r: FpImage)
        ensures
            r@ == (FpImageView {
                width,
                height,
                data: Seq::empty(),
                binarized: Seq::empty(),
            }),
    {
        FpImage { width, height, data: Vec::new(), binarized: Vec::new() }
    }

    /// Gets the pixel width of an image.
    pub fn width(&self) -> (r: u32)
        ensures
            r == self@.width,
    {
        self.width
    }

    /// Gets the pixel height of an image.
    pub fn height(&self) -> (r: u32)
        ensures
            r == self@.height,
    {
        self.height
    }

    /// Gets the greyscale data for an image.
    pub fn data(&self) -> (r: Vec<u8>)
        ensures
            r@ == self@.data,
    {
        self.data.clone()
    }

    /// Gets the binarized data for an image.
    pub fn binarized(&self) -> (r: Vec<u8>)
        ensures
            r@ == self@.binarized,
    {
        self.binarized.clone()
    }
}

} // verus!
