//! AMQP value model, message model and client-side logic for Azure Event Hubs,
//! together with the tracing and management-model types that accompany it.

pub mod connection_manager;
pub mod entries;
pub mod error;
pub mod value;
pub mod management;
pub mod messaging;
pub mod mgmt;
pub mod mock;
pub mod models;
pub mod options;
pub mod producer;
pub mod subclient;
pub mod telemetry;
