//! The enumerations that belong to `sku`.
use vstd::prelude::*;

verus! {

#[derive(Clone, Debug, PartialEq)]
pub enum Name {
    CapacityReservation,
}

} // verus!
