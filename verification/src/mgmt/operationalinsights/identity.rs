//! The enumerations that belong to `identity`.
use vstd::prelude::*;

verus! {

#[derive(Clone, Debug, PartialEq)]
pub enum Type {
    SystemAssigned,
    NoIdentity,
}

} // verus!
