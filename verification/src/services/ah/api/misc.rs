//! Parts shared by the answers of the Albert Heijn API.

use vstd::prelude::*;

verus! {

/// A picture of a product or category in one size.
pub struct Image {
    pub width: u32,
    pub height: u32,
    pub url: String,
}

} // verus!
