//! Resource models of the Service Fabric Mesh management API.
use vstd::prelude::*;

pub mod volume_properties;
pub mod application_properties;
pub mod service_replica_properties;
pub mod ingress_config;

verus! {

#[derive(Clone, Debug, PartialEq)]
pub struct ManagedProxyResource {
    pub id: Option<String>,
    pub name: Option<String>,
    pub type_: Option<String>,
}

#[derive(Clone, Debug, PartialEq)]
pub struct ProvisionedResourceProperties {
    pub provisioning_state: Option<String>,
}

#[derive(Clone, Debug, PartialEq)]
pub struct NetworkResourceProperties {
    pub provisioned_resource_properties: ProvisionedResourceProperties,
    pub network_properties: NetworkProperties,
}

#[derive(Clone, Debug, PartialEq)]
pub struct NetworkProperties {
    pub description: Option<String>,
    pub address_prefix: String,
    pub ingress_config: Option<IngressConfig>,
}

#[derive(Clone, Debug, PartialEq)]
pub struct VolumeResourceProperties {
    pub provisioned_resource_properties: ProvisionedResourceProperties,
    pub volume_properties: VolumeProperties,
}

#[derive(Clone, Debug, PartialEq)]
pub struct VolumeProperties {
    pub description: Option<String>,
    pub provider: volume_properties::Provider,
    pub azure_file_parameters: Option<VolumeProviderParametersAzureFile>,
}

#[derive(Clone, Debug, PartialEq)]
pub struct VolumeProviderParametersAzureFile {
    pub account_name: String,
    pub account_key: Option<String>,
    pub share_name: String,
}

#[derive(Clone, Debug, PartialEq)]
pub struct ContainerInstanceView {
    pub restart_count: Option<i64>,
    pub current_state: Option<ContainerState>,
    pub previous_state: Option<ContainerState>,
    pub events: Vec<ContainerEvent>,
}

#[derive(Clone, Debug, PartialEq)]
pub struct ContainerEvent {
    pub name: Option<String>,
    pub count: Option<i64>,
    pub first_timestamp: Option<String>,
    pub last_timestamp: Option<String>,
    pub message: Option<String>,
    pub type_: Option<String>,
}

#[derive(Clone, Debug, PartialEq)]
pub struct ContainerLabel {
    pub name: String,
    pub value: String,
}

#[derive(Clone, Debug, PartialEq)]
pub struct ContainerLogs {
    pub content: Option<String>,
}

#[derive(Clone, Debug, PartialEq)]
pub struct ContainerState {
    pub state: Option<String>,
    pub start_time: Option<String>,
    pub exit_code: Option<String>,
    pub finish_time: Option<String>,
    pub detail_status: Option<String>,
}

#[derive(Clone, Debug, PartialEq)]
pub struct ImageRegistryCredential {
    pub server: String,
    pub username: String,
    pub password: Option<String>,
}

#[derive(Clone, Debug, PartialEq)]
pub struct OperationListResult {
    pub value: Vec<OperationResult>,
    pub next_link: Option<String>,
}

#[derive(Clone, Debug, PartialEq)]
pub struct OperationResult {
    pub name: Option<String>,
    pub display: Option<AvailableOperationDisplay>,
    pub origin: Option<String>,
    pub next_link: Option<String>,
}

#[derive(Clone, Debug, PartialEq)]
pub struct AvailableOperationDisplay {
    pub provider: Option<String>,
    pub resource: Option<String>,
    pub operation: Option<String>,
    pub description: Option<String>,
}

#[derive(Clone, Debug, PartialEq)]
pub struct ErrorModel {
    pub code: Option<String>,
    pub message: Option<String>,
}

#[derive(Clone, Debug, PartialEq)]
pub struct ContainerVolume {
    pub name: String,
    pub read_only: Option<bool>,
    pub destination_path: String,
}

#[derive(Clone, Debug, PartialEq)]
pub struct EndpointProperties {
    pub name: String,
    pub port: Option<i64>,
}

#[derive(Clone, Debug, PartialEq)]
pub struct IngressConfig {
    pub qos_level: Option<ingress_config::QosLevel>,
    pub layer4: Vec<Layer4IngressConfig>,
    pub public_ip_address: Option<String>,
}

#[derive(Clone, Debug, PartialEq)]
pub struct Layer4IngressConfig {
    pub name: Option<String>,
    pub public_port: Option<i64>,
    pub application_name: Option<String>,
    pub service_name: Option<String>,
    pub endpoint_name: Option<String>,
}

#[derive(Clone, Debug, PartialEq)]
pub struct EnvironmentVariable {
    pub name: Option<String>,
    pub value: Option<String>,
}

#[derive(Clone, Debug, PartialEq)]
pub struct Setting {
    pub name: Option<String>,
    pub value: Option<String>,
}

#[derive(Clone, Debug, PartialEq)]
pub struct NetworkRef {
    pub name: Option<String>,
}

#[derive(Clone, Debug, PartialEq)]
pub enum HealthState {
    Invalid,
    Healthy,
    Warning,
    Error,
    Unknown,
}

#[derive(Clone, Debug, PartialEq)]
pub struct DiagnosticsDescription {
    pub sinks: Vec<DiagnosticsSinkProperties>,
    pub enabled: Option<bool>,
    pub default_sink_refs: Vec<String>,
}

#[derive(Clone, Debug, PartialEq)]
pub struct DiagnosticsRef {
    pub enabled: Option<bool>,
    pub sink_refs: Vec<String>,
}

#[derive(Clone, Debug, PartialEq)]
pub struct DiagnosticsSinkProperties {
    pub kind: DiagnosticsSinkKind,
    pub name: Option<String>,
    pub description: Option<String>,
}

#[derive(Clone, Debug, PartialEq)]
pub enum DiagnosticsSinkKind {
    Invalid,
    AzureInternalMonitoringPipeline,
}

} // verus!
