use vstd::prelude::*;

verus! {

/// The address an order is shipped to.
#[derive(Debug, Clone, PartialEq, Eq, Hash)]
pub struct ShippingAddress {
    pub country_code: String,
    pub state: String,
    pub city: String,
    pub street_line1: String,
    pub street_line2: String,
    pub post_code: String,
}

} // verus!
