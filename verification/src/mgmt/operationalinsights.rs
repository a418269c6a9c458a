//! Resource models of the Log Analytics (Operational Insights) management API.
use vstd::prelude::*;

pub mod cluster_properties;
pub mod sku;
pub mod identity;
pub mod destination;
pub mod linked_storage_accounts_properties;

verus! {

#[derive(Clone, Debug, PartialEq)]
pub struct ClusterProperties {
    pub next_link: Option<String>,
    pub cluster_id: Option<String>,
    pub provisioning_state: Option<cluster_properties::ProvisioningState>,
    pub key_vault_properties: Option<KeyVaultProperties>,
}

#[derive(Clone, Debug, PartialEq)]
pub struct ErrorResponse {
    pub error: Option<ErrorDetails>,
}

#[derive(Clone, Debug, PartialEq)]
pub struct ErrorDetails {
    pub code: Option<String>,
    pub message: Option<String>,
    pub target: Option<String>,
}

#[derive(Clone, Debug, PartialEq)]
pub struct ClusterPatchProperties {
    pub key_vault_properties: Option<KeyVaultProperties>,
}

#[derive(Clone, Debug, PartialEq)]
pub struct KeyVaultProperties {
    pub key_vault_uri: Option<String>,
    pub key_name: Option<String>,
    pub key_version: Option<String>,
}

#[derive(Clone, Debug, PartialEq)]
pub struct Sku {
    pub capacity: Option<i64>,
    pub name: Option<sku::Name>,
}

#[derive(Clone, Debug, PartialEq)]
pub struct Identity {
    pub principal_id: Option<String>,
    pub tenant_id: Option<String>,
    pub type_: identity::Type,
}

#[derive(Clone, Debug, PartialEq)]
pub struct LinkedServiceProperties {
    pub resource_id: Option<String>,
    pub write_access_resource_id: Option<String>,
}

#[derive(Clone, Debug, PartialEq)]
pub struct DataExportProperties {
    pub data_export_id: Option<String>,
    pub table_names: Vec<String>,
    pub destination: Option<Destination>,
    pub enable: Option<bool>,
    pub created_date: Option<String>,
    pub last_modified_date: Option<String>,
}

#[derive(Clone, Debug, PartialEq)]
pub struct Destination {
    pub resource_id: String,
    pub type_: Option<destination::Type>,
    pub meta_data: Option<DestinationMetaData>,
}

#[derive(Clone, Debug, PartialEq)]
pub struct DestinationMetaData {
    pub event_hub_name: Option<String>,
}

#[derive(Clone, Debug, PartialEq)]
pub struct LinkedStorageAccountsProperties {
    pub data_source_type: Option<linked_storage_accounts_properties::DataSourceType>,
    pub storage_account_ids: Vec<String>,
}

} // verus!
