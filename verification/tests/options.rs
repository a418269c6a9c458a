use azure_messaging_eventhubs::messaging::{
    AmqpOutcome, AmqpSource, AmqpTarget, DistributionMode, TerminusDurability,
    TerminusExpiryPolicy,
};
use azure_messaging_eventhubs::options::connection::{
    AmqpConnectionBuilder, AmqpConnectionOptionsBuilder, DEFAULT_MAX_FRAME_SIZE,
};
use azure_messaging_eventhubs::options::sender::AmqpSenderOptions;
use azure_messaging_eventhubs::options::session::AmqpSessionOptions;
use azure_messaging_eventhubs::options::{ReceiverSettleMode, SenderSettleMode};
use azure_messaging_eventhubs::producer::ProducerClientOptions;
use azure_messaging_eventhubs::value::{AmqpOrderedMap, AmqpSymbol, AmqpValue};

fn symbol(s: &str) -> AmqpSymbol {
    AmqpSymbol::from_text(s)
}

#[test]
fn connection_test_amqp_connection_builder() {
    let options = AmqpConnectionOptionsBuilder::new()
        .with_max_frame_size(1024)
        .with_channel_max(16)
        .with_idle_timeout(time::Duration::seconds(60))
        .with_outgoing_locales(vec!["en-US".to_string()])
        .with_incoming_locales(vec!["en-US".to_string()])
        .with_offered_capabilities(vec![symbol("capability")])
        .with_desired_capabilities(vec![symbol("capability")])
        .with_properties(vec![("key", "value")])
        .with_buffer_size(1024)
        .build();
    assert_eq!(options.max_frame_size, Some(1024));
    assert_eq!(options.channel_max, Some(16));
    assert_eq!(options.idle_timeout, Some(time::Duration::seconds(60)));
    assert_eq!(options.outgoing_locales, Some(vec!["en-US".to_string()]));
    assert_eq!(options.incoming_locales, Some(vec!["en-US".to_string()]));
    assert_eq!(options.offered_capabilities, Some(vec![symbol("capability")]));
    assert_eq!(options.desired_capabilities, Some(vec![symbol("capability")]));
    let properties = options.properties.unwrap();
    assert_eq!(properties.get(symbol("key")), Some(&AmqpValue::String("value".to_string())));
    assert_eq!(options.buffer_size, Some(1024));
}

#[test]
fn mod_test_amqp_connection_builder() {
    let builder = AmqpConnectionBuilder::new()
        .with_max_frame_size(1024)
        .with_channel_max(16)
        .with_idle_timeout(time::Duration::seconds(60))
        .with_outgoing_locales(vec!["en-US".to_string()])
        .with_incoming_locales(vec!["en-US".to_string()])
        .with_offered_capabilities(vec![symbol("capability")])
        .with_desired_capabilities(vec![symbol("capability")])
        .with_properties(vec![("key", "value")])
        .with_buffer_size(1024);
    let settings = builder.open_settings("id".to_string());
    assert_eq!(settings.container_id, "id");
    assert_eq!(settings.max_frame_size, 1024);
    assert_eq!(settings.options.channel_max, Some(16));
}

#[test]
fn test_connection_settings_default_frame_size() {
    let settings = AmqpConnectionBuilder::new().open_settings("container".to_string());
    assert_eq!(settings.max_frame_size, DEFAULT_MAX_FRAME_SIZE);
    assert_eq!(settings.max_frame_size, 65536);
    assert_eq!(settings.options.properties, None);
}

#[test]
fn mod_test_amqp_session_options_builder() {
    let builder = AmqpSessionOptions::builder()
        .with_next_outgoing_id(1)
        .with_incoming_window(1)
        .with_outgoing_window(1)
        .with_handle_max(1)
        .with_offered_capabilities(vec![symbol("capability")])
        .with_desired_capabilities(vec![symbol("capability")])
        .with_properties(vec![("key", "value")])
        .with_buffer_size(1024);
    let session_options = builder.build();
    assert_eq!(session_options.next_outgoing_id, Some(1));
    assert_eq!(session_options.incoming_window, Some(1));
    assert_eq!(session_options.outgoing_window, Some(1));
    assert_eq!(session_options.handle_max, Some(1));
    assert_eq!(session_options.offered_capabilities, Some(vec![symbol("capability")]));
    assert_eq!(session_options.desired_capabilities, Some(vec![symbol("capability")]));
    assert!(session_options.properties.is_some());
    let properties = session_options.properties.clone().unwrap();
    assert!(properties.contains_key(symbol("key")));
    assert_eq!(*properties.get(symbol("key")).unwrap(), AmqpValue::String("value".to_string()));
    assert_eq!(session_options.buffer_size, Some(1024));
}

#[test]
fn session_test_amqp_session_options_builder() {
    let builder = AmqpSessionOptions::builder()
        .with_next_outgoing_id(1)
        .with_incoming_window(1)
        .with_outgoing_window(1)
        .with_handle_max(1)
        .with_offered_capabilities(vec![symbol("capability")])
        .with_desired_capabilities(vec![symbol("capability")])
        .with_properties(vec![("key", "value")])
        .with_buffer_size(1024);

    let session_options = builder.build();
    assert_eq!(session_options.next_outgoing_id, Some(1));
    assert_eq!(session_options.incoming_window, Some(1));
    assert_eq!(session_options.outgoing_window, Some(1));
    assert_eq!(session_options.handle_max, Some(1));
    assert_eq!(session_options.offered_capabilities, Some(vec![symbol("capability")]));
    assert_eq!(session_options.desired_capabilities, Some(vec![symbol("capability")]));
    assert!(session_options.properties.is_some());
    let properties = session_options.properties.clone().unwrap();
    assert!(properties.contains_key(symbol("key")));
    assert_eq!(*properties.get(symbol("key")).unwrap(), AmqpValue::String("value".to_string()));
    assert_eq!(session_options.buffer_size, Some(1024));
}

fn sender_options_with_all_settings(modes_in_sequence: bool) -> AmqpSenderOptions {
    let mut builder = AmqpSenderOptions::builder().with_name("name".to_string());
    if modes_in_sequence {
        builder = builder
            .with_sender_settle_mode(SenderSettleMode::Unsettled)
            .with_sender_settle_mode(SenderSettleMode::Settled)
            .with_sender_settle_mode(SenderSettleMode::Mixed)
            .with_receiver_settle_mode(ReceiverSettleMode::Second)
            .with_receiver_settle_mode(ReceiverSettleMode::First);
    } else {
        builder = builder
            .with_sender_settle_mode(SenderSettleMode::Mixed)
            .with_receiver_settle_mode(ReceiverSettleMode::First);
    }
    builder
        .with_source(AmqpSource::builder().with_address("address".to_string()).build())
        .with_offered_capabilities(vec![symbol("capability")])
        .with_desired_capabilities(vec![symbol("capability")])
        .with_properties(vec![("key", "value")])
        .with_buffer_size(1024)
        .with_initial_delivery_count(27)
        .with_max_message_size(1024)
        .with_role(AmqpValue::String("role".to_string()))
        .build()
}

fn check_sender_options(sender_options: AmqpSenderOptions) {
    assert_eq!(sender_options.name, Some("name".to_string()));
    assert_eq!(sender_options.sender_settle_mode, Some(SenderSettleMode::Mixed));
    assert_eq!(sender_options.receiver_settle_mode, Some(ReceiverSettleMode::First));
    assert_eq!(sender_options.offered_capabilities, Some(vec![symbol("capability")]));
    assert_eq!(sender_options.desired_capabilities, Some(vec![symbol("capability")]));
    assert!(sender_options.properties.is_some());
    let properties = sender_options.properties.unwrap();
    assert!(properties.contains_key(symbol("key")));
    assert_eq!(*properties.get(symbol("key")).unwrap(), AmqpValue::String("value".to_string()));
    assert_eq!(sender_options.initial_delivery_count, Some(27));
    assert_eq!(sender_options.max_message_size, Some(1024));
    assert_eq!(sender_options.buffer_size, Some(1024));
    assert_eq!(sender_options.role, Some(AmqpValue::String("role".to_string())));
}

#[test]
fn mod_test_amqp_sender_options_builder() {
    check_sender_options(sender_options_with_all_settings(false));
}

#[test]
fn sender_test_amqp_sender_options_builder() {
    check_sender_options(sender_options_with_all_settings(true));
}

#[test]
fn test_settle_mode_codes() {
    assert_eq!(SenderSettleMode::Unsettled.code(), 0);
    assert_eq!(SenderSettleMode::Settled.code(), 1);
    assert_eq!(SenderSettleMode::Mixed.code(), 2);
    assert_eq!(ReceiverSettleMode::First.code(), 0);
    assert_eq!(ReceiverSettleMode::Second.code(), 1);
}

#[test]
fn test_amqp_source_builder() {
    let source = AmqpSource::builder()
        .with_address("address".to_string())
        .with_durable(TerminusDurability::Configuration)
        .with_expiry_policy(TerminusExpiryPolicy::ConnectionClose)
        .with_timeout(10)
        .with_dynamic(true)
        .with_dynamic_node_properties(AmqpOrderedMap::new())
        .with_distribution_mode(DistributionMode::Copy)
        .with_filter(AmqpOrderedMap::new())
        .with_default_outcome(AmqpOutcome::Accepted)
        .with_outcomes(vec![symbol("outcome")])
        .build();

    assert_eq!(source.address, Some("address".to_string()));
    assert_eq!(source.durable, Some(TerminusDurability::Configuration));
    assert_eq!(source.expiry_policy, Some(TerminusExpiryPolicy::ConnectionClose));
    assert_eq!(source.timeout, Some(10));
    assert_eq!(source.dynamic, Some(true));
    assert_eq!(source.dynamic_node_properties, Some(AmqpOrderedMap::new()));
    assert_eq!(source.distribution_mode, Some(DistributionMode::Copy));
    assert_eq!(source.filter, Some(AmqpOrderedMap::new()));
    assert_eq!(source.default_outcome, Some(AmqpOutcome::Accepted));
    assert_eq!(source.outcomes, Some(vec![symbol("outcome")]));
}

#[test]
fn test_amqp_target_builder() {
    let target = AmqpTarget::builder()
        .with_address("address".to_string())
        .with_durable(TerminusDurability::Configuration)
        .with_expiry_policy(TerminusExpiryPolicy::ConnectionClose)
        .with_timeout(10)
        .with_dynamic(true)
        .with_dynamic_node_properties(AmqpOrderedMap::new())
        .with_capabilities(vec![AmqpValue::from_text("capability")])
        .build();

    assert_eq!(target.address, Some("address".to_string()));
    assert_eq!(target.durable, Some(TerminusDurability::Configuration));
    assert_eq!(target.expiry_policy, Some(TerminusExpiryPolicy::ConnectionClose));
    assert_eq!(target.timeout, Some(10));
    assert_eq!(target.dynamic, Some(true));
    assert_eq!(target.dynamic_node_properties, Some(AmqpOrderedMap::new()));
    assert_eq!(target.capabilities, Some(vec![AmqpValue::from_text("capability")]));
}

#[test]
fn test_producer_client_options_builder() {
    let options = ProducerClientOptions::builder()
        .with_application_id("application_id".to_string())
        .with_retry_options(azure_core::http::RetryOptions::default())
        .build();
    assert_eq!(options.application_id().clone().unwrap(), "application_id");
    assert!(options.retry_options().is_some());
}

#[test]
fn test_connection_options_builder_builds_again() {
    let mut builder = AmqpConnectionOptionsBuilder::new();
    builder
        .with_channel_max(3)
        .with_outgoing_locales(vec!["fr-FR".to_string()])
        .with_properties(vec![("k", "v")]);
    let first = builder.build();
    let second = builder.build();
    assert_eq!(first.channel_max, Some(3));
    assert_eq!(second.channel_max, Some(3));
    assert_eq!(first.max_frame_size, None);
    assert_eq!(first.outgoing_locales, Some(vec!["fr-FR".to_string()]));
    assert_eq!(first.outgoing_locales, second.outgoing_locales);
    assert_eq!(first.properties, second.properties);
    builder.with_buffer_size(8);
    assert_eq!(builder.build().buffer_size, Some(8));
    assert_eq!(builder.build().channel_max, Some(3));
}
