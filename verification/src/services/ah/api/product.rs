//! The product search of the Albert Heijn API: the parts of its answer
//! that hold no prices, and how a product's picture is chosen.

use vstd::prelude::*;
use vstd::string::*;

use super::misc::Image;

verus! {

pub struct Page {
    pub size: i64,
    pub total_elements: i64,
    pub total_pages: i64,
    pub number: i64,
}

pub struct Links {
    pub first: Option<Link>,
    pub current: Option<Link>,
    pub next: Option<Link>,
    pub last: Option<Link>,
}

pub struct Link {
    pub href: String,
}

pub struct Filter {
    pub id: String,
    pub label: String,
    pub options: Vec<FilterOption>,
    pub filter_type: String,
    pub boolean_filter: bool,
}

pub struct FilterOption {
    pub id: String,
    pub label: String,
    pub count: u32,
    pub display: bool,
}

pub struct Configuration {
    pub google_banners: Option<GoogleBanners>,
}

pub struct GoogleBanners {
    pub ad_unit_main_path: String,
    pub ad_unit_secondary_path: String,
    pub custom_template_id: String,
    pub div_gpt_ad: String,
}

pub struct VirtualBundleItem {
    pub product_id: u64,
    pub quantity: u32,
}

/// Smallest area, in pixels, that a product picture must exceed to be
/// shown (200 × 200).
pub const MIN_PICTURE_AREA: u64 = 40000;

pub open spec fn is_large_enough(image: Image) -> bool {
    image.width * image.height > MIN_PICTURE_AREA
}

/// The address of the picture shown for a product.
pub fn product_picture(images: &Vec<Image>) -> (r: Option<String>)
    ensures
        r is None <==> forall|i: int| 0 <= i < images@.len() ==> !is_large_enough(#[trigger] images@[i]),
        r matches Some(u) ==> exists|i: int|
            0 <= i < images@.len() && is_large_enough(#[trigger] images@[i]) && (forall|j: int|
                0 <= j < i ==> !is_large_enough(#[trigger] images@[j])) && u@ == images@[i].url@,
{
    let mut i: usize = 0;
    while i < images.len()
        invariant
            i <= images@.len(),
            forall|j: int| 0 <= j < i ==> !is_large_enough(#[trigger] images@[j]),
        decreases images@.len() - i,
    {
        let image = &images[i];
        assert(image.width as u64 * image.height as u64 <= u32::MAX as u64 * u32::MAX as u64)
            by (nonlinear_arith)
            requires
                image.width <= u32::MAX,
                image.height <= u32::MAX,
        ;
        let area: u64 = image.width as u64 * image.height as u64;
        if area > MIN_PICTURE_AREA {
            assert(is_large_enough(images@[i as int]));
            return Some(image.url.clone());
        }
        i = i + 1;
    }
    None
}

/// Whether a product is on offer: its `isBonus` flag, false when absent.
pub fn bonus_flag(is_bonus: Option<bool>) -> (b: bool)
    ensures
        b == (is_bonus == Some(true)),
{
    match is_bonus {
        Some(x) => x,
        None => false,
    }
}

} // verus!
