use vstd::prelude::*;
use crate::types::shipping_address::ShippingAddress;

verus! {

/// What a customer has told about an order.
#[derive(Debug, Clone, PartialEq, Eq, Hash)]
pub struct OrderInfo {
    pub name: String,
    pub phone_number: String,
    pub email: String,
    pub shipping_address: ShippingAddress,
}

} // verus!
