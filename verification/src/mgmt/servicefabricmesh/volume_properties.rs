//! The enumerations that belong to `volume_properties`.
use vstd::prelude::*;

verus! {

#[derive(Clone, Debug, PartialEq)]
pub enum Provider {
    SfAzureFile,
}

} // verus!
