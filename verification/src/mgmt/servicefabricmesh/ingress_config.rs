//! The enumerations that belong to `ingress_config`.
use vstd::prelude::*;

verus! {

#[derive(Clone, Debug, PartialEq)]
pub enum QosLevel {
    Bronze,
}

} // verus!
