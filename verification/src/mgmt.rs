//! Resource models of Azure management APIs.

pub mod operationalinsights;
pub mod servicefabricmesh;
