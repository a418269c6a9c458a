//! The enumerations that belong to `linked_storage_accounts_properties`.
use vstd::prelude::*;

verus! {

#[derive(Clone, Debug, PartialEq)]
pub enum DataSourceType {
    CustomLogs,
    AzureWatson,
}

} // verus!
