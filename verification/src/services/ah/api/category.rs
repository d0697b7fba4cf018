//! Product categories of the Albert Heijn API.

use vstd::prelude::*;

verus! {

pub struct Category {
    pub id: i64,
    pub slugified_name: String,
    pub name: String,
    pub images: Vec<super::misc::Image>,
    pub nix18: bool,
}

} // verus!
