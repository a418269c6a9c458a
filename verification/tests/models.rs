use azure_messaging_eventhubs::messaging::{
    AmqpMessage, AmqpMessageBody, AmqpMessageHeader, AmqpMessageProperties, AmqpTarget,
};
use azure_messaging_eventhubs::messaging::keys::{
    annotation_key_from_value, annotation_key_to_value, capability_symbol, message_id_from_value,
    message_id_to_value, AmqpAnnotationKey, AmqpMessageId,
};
use azure_messaging_eventhubs::models::{message_id_readable, EventData};
use azure_messaging_eventhubs::value::{AmqpOrderedMap, AmqpSymbol, AmqpTimestamp, AmqpValue};

#[test]
fn test_event_data_builder() {
    let event = EventData::builder()
        .with_body(vec![1, 2, 3])
        .with_content_type("application/json".to_string())
        .with_correlation_id(AmqpValue::ULong(9))
        .with_message_id("m-1".to_string())
        .add_property("a".to_string(), AmqpValue::Int(1))
        .add_property("b".to_string(), AmqpValue::Int(2))
        .add_property("a".to_string(), AmqpValue::Int(3))
        .build();
    assert_eq!(event.body(), &vec![1, 2, 3]);
    assert_eq!(event.content_type(), Some(&"application/json".to_string()));
    assert_eq!(event.correlation_id(), Some(&AmqpValue::ULong(9)));
    assert_eq!(event.message_id(), Some(&"m-1".to_string()));
    assert_eq!(event.property(&"a".to_string()), Some(&AmqpValue::Int(3)));
    assert_eq!(event.property(&"b".to_string()), Some(&AmqpValue::Int(2)));
    assert_eq!(event.property(&"c".to_string()), None);
}

#[test]
fn test_event_data_new_and_from_body() {
    let empty = EventData::new();
    assert!(empty.body().is_empty());
    assert_eq!(empty.content_type(), None);
    let event = EventData::from_body(vec![7]);
    assert_eq!(event.body(), &vec![7]);
    assert_eq!(event.message_id(), None);
}

#[test]
fn test_event_message_round_trip() {
    let event = EventData::builder()
        .with_body(vec![1])
        .with_content_type("text/plain".to_string())
        .with_message_id("id".to_string())
        .add_property("k".to_string(), AmqpValue::from_text("v"))
        .build();
    let message = event.into_message();
    assert_eq!(message.body, AmqpMessageBody::Empty);
    let properties = message.properties.clone().unwrap();
    assert_eq!(properties.content_type(), Some(&AmqpSymbol("text/plain".to_string())));
    assert_eq!(properties.message_id(), Some(&AmqpValue::String("id".to_string())));
    assert!(message_id_readable(&message));
    let back = EventData::from_message(message);
    assert!(back.body().is_empty());
    assert_eq!(back.content_type(), Some(&"text/plain".to_string()));
    assert_eq!(back.message_id(), Some(&"id".to_string()));
    assert_eq!(back.property(&"k".to_string()), Some(&AmqpValue::String("v".to_string())));
}

#[test]
fn test_event_from_message_without_properties() {
    let mut application_properties = AmqpOrderedMap::new();
    application_properties.insert("x".to_string(), AmqpValue::Int(1));
    application_properties.insert("x".to_string(), AmqpValue::Int(2));
    let message = AmqpMessage::builder()
        .with_body(AmqpMessageBody::from_binary(vec![1, 2]))
        .with_application_properties(application_properties)
        .build();
    assert!(message_id_readable(&message));
    let event = EventData::from_message(message);
    assert_eq!(event.property(&"x".to_string()), Some(&AmqpValue::Int(2)));
    assert_eq!(event.content_type(), None);
}

#[test]
fn test_message_id_must_be_text() {
    let properties = AmqpMessageProperties::builder().with_message_id(AmqpValue::ULong(5)).build();
    let message = AmqpMessage::builder().with_properties(properties).build();
    assert!(!message_id_readable(&message));
}

#[test]
fn test_message_properties_builder_getters() {
    let properties = AmqpMessageProperties::builder()
        .with_user_id(vec![1])
        .with_to(AmqpValue::from_text("to"))
        .with_subject("subject".to_string())
        .with_reply_to(AmqpValue::from_text("reply"))
        .with_content_encoding(AmqpSymbol::from_text("gzip"))
        .with_absolute_expiry_time(AmqpTimestamp(10))
        .with_creation_time(AmqpTimestamp(5))
        .with_group_id("group".to_string())
        .with_group_sequence(3)
        .with_reply_to_group_id("rgroup".to_string())
        .build();
    assert_eq!(properties.user_id(), Some(&vec![1]));
    assert_eq!(properties.to(), Some(&AmqpValue::String("to".to_string())));
    assert_eq!(properties.subject(), Some(&"subject".to_string()));
    assert_eq!(properties.reply_to(), Some(&AmqpValue::String("reply".to_string())));
    assert_eq!(properties.content_encoding(), Some(&AmqpSymbol("gzip".to_string())));
    assert_eq!(properties.absolute_expiry_time(), Some(&AmqpTimestamp(10)));
    assert_eq!(properties.creation_time(), Some(&AmqpTimestamp(5)));
    assert_eq!(properties.group_id(), Some(&"group".to_string()));
    assert_eq!(properties.group_sequence(), Some(&3));
    assert_eq!(properties.reply_to_group_id(), Some(&"rgroup".to_string()));
    assert_eq!(properties.message_id(), None);
}

#[test]
fn test_message_builder_application_property() {
    let header = AmqpMessageHeader {
        durable: Some(true),
        priority: Some(4),
        time_to_live: None,
        first_acquirer: None,
        delivery_count: Some(0),
    };
    let message = AmqpMessage::builder()
        .with_header(header)
        .add_application_property("name".to_string(), AmqpValue::Int(1))
        .add_application_property("other".to_string(), AmqpValue::Int(2))
        .build();
    assert_eq!(message.header, Some(header));
    let application_properties = message.application_properties.unwrap();
    assert_eq!(application_properties.len(), 2);
    assert_eq!(application_properties.get("other".to_string()), Some(&AmqpValue::Int(2)));
}

#[test]
fn test_target_address() {
    let target = AmqpTarget::from("queue".to_string());
    assert_eq!(target.address, Some("queue".to_string()));
    assert_eq!(target.into_address(), "queue");
}

#[test]
fn test_message_id_kinds() {
    assert_eq!(message_id_from_value(AmqpValue::ULong(3)), Some(AmqpMessageId::Ulong(3)));
    assert_eq!(message_id_from_value(AmqpValue::Uuid(7)), Some(AmqpMessageId::Uuid(7)));
    assert_eq!(message_id_from_value(AmqpValue::Binary(vec![1])), Some(AmqpMessageId::Binary(vec![1])));
    assert_eq!(
        message_id_from_value(AmqpValue::String("id".to_string())),
        Some(AmqpMessageId::String("id".to_string()))
    );
    assert_eq!(message_id_from_value(AmqpValue::Int(3)), None);
    let id = AmqpMessageId::String("x".to_string());
    assert_eq!(message_id_from_value(message_id_to_value(id.clone())), Some(id));
}

#[test]
fn test_annotation_keys_and_capabilities() {
    let key = AmqpAnnotationKey::Symbol(AmqpSymbol::from_text("x-opt"));
    assert_eq!(annotation_key_from_value(annotation_key_to_value(key.clone())), Some(key));
    assert_eq!(annotation_key_from_value(AmqpValue::ULong(1)), Some(AmqpAnnotationKey::Ulong(1)));
    assert_eq!(annotation_key_from_value(AmqpValue::String("s".to_string())), None);
    assert_eq!(capability_symbol(AmqpValue::from_text("capability")), Some(AmqpSymbol::from_text("capability")));
    assert_eq!(capability_symbol(AmqpValue::Boolean(true)), None);
}

#[test]
fn test_event_message_round_trip_through_from() {
    let event = EventData::builder()
        .with_content_type("text/plain".to_string())
        .with_correlation_id(AmqpValue::ULong(5))
        .with_message_id("id-2".to_string())
        .add_property("k".to_string(), AmqpValue::Int(4))
        .build();
    let message = AmqpMessage::from(event);
    let back = EventData::from(message);
    assert_eq!(back.content_type(), Some(&"text/plain".to_string()));
    assert_eq!(back.correlation_id(), Some(&AmqpValue::ULong(5)));
    assert_eq!(back.message_id(), Some(&"id-2".to_string()));
    assert_eq!(back.property(&"k".to_string()), Some(&AmqpValue::Int(4)));
    assert_eq!(back.property(&"j".to_string()), None);
}
