//! The enumerations that belong to `service_replica_properties`.
use vstd::prelude::*;

verus! {

#[derive(Clone, Debug, PartialEq)]
pub enum OsType {
    Linux,
    Windows,
}

} // verus!
