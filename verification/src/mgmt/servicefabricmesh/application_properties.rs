//! The enumerations that belong to `application_properties`.
use vstd::prelude::*;

verus! {

#[derive(Clone, Debug, PartialEq)]
pub enum Status {
    Invalid,
    Ready,
    Upgrading,
    Creating,
    Deleting,
    Failed,
}

} // verus!
