//! The enumerations that belong to `cluster_properties`.
use vstd::prelude::*;

verus! {

#[derive(Clone, Debug, PartialEq)]
pub enum ProvisioningState {
    Creating,
    Succeeded,
    Failed,
    Canceled,
    Deleting,
    ProvisioningAccount,
}

} // verus!
