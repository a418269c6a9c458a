//! The enumerations that belong to `destination`.
use vstd::prelude::*;

verus! {

#[derive(Clone, Debug, PartialEq)]
pub enum Type {
    StorageAccount,
    EventHub,
}

} // verus!
