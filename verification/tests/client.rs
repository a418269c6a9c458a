use azure_messaging_eventhubs::connection_manager::{
    connection_properties, AuthorizationScopes, AuthorizeAction, ConnectionManager,
};
use azure_messaging_eventhubs::error::ErrorKind;
use azure_messaging_eventhubs::management::{management_request, GetPartitionRequest, ManagementRequest};
use azure_messaging_eventhubs::mock::{MockAmqpConnection, MockAmqpDelivery, MockAmqpReceiver, MockAmqpSender};
use azure_messaging_eventhubs::messaging::{AmqpMessage, AmqpMessageBody, AmqpOutcome};
use azure_messaging_eventhubs::producer::client::ProducerClient;
use azure_messaging_eventhubs::producer::{
    eventhub_properties_from_response, eventhub_response_is_readable, eventhub_url, expiry_millis,
    partition_properties_from_response, partition_request_properties,
    partition_response_is_readable, ProducerClientOptions,
};
use azure_messaging_eventhubs::subclient::{
    is_subclient_declaration, text_ends_with, FunctionShape, ReturnTypeShape,
};
use azure_messaging_eventhubs::value::{AmqpOrderedMap, AmqpTimestamp, AmqpValue};

type Manager = ConnectionManager<MockAmqpConnection, String>;

#[test]
fn test_connection_manager() {
    let connection_manager: Manager = ConnectionManager::new(
        "amqps://example.com/".to_string(),
        Some("test_app".to_string()),
        Some("https://custom.endpoint/".to_string()),
    );
    assert_eq!(connection_manager.get_connection_id(), "test_app");
}

#[test]
fn test_connection_manager_without_app_id() {
    let connection_manager: Manager =
        ConnectionManager::new("amqps://example.com/".to_string(), None, None);
    assert!(!connection_manager.get_connection_id().is_empty());
    assert!(uuid::Uuid::parse_str(connection_manager.get_connection_id()).is_ok());
}

#[test]
fn test_get_connection_without_initialization() {
    let connection_manager: Manager =
        ConnectionManager::new("amqps://example.com/".to_string(), None, None);
    let result = connection_manager.get_connection();
    assert!(result.is_err());
    let err = result.err();
    let error_str = format!("{:?}", err);
    assert!(error_str.contains("Connection is not yet open"));
    assert_eq!(err.unwrap().kind(), ErrorKind::MissingConnection);
}

#[test]
fn test_close_connection() {
    let mut connection_manager: Manager =
        ConnectionManager::new("amqps://example.com/".to_string(), None, None);
    let mut mock_connection = MockAmqpConnection::new();
    mock_connection.open(
        connection_manager.get_connection_id().to_string(),
        connection_manager.url().clone(),
        None,
    );
    assert!(connection_manager.needs_connection());
    connection_manager.install_connection(mock_connection);
    assert!(!connection_manager.needs_connection());

    let connection = connection_manager.get_connection().unwrap();
    assert!(connection.is_open());
    assert_eq!(connection.get_url().clone(), Some("amqps://example.com/".to_string()));
}

#[test]
fn test_first_connection_stays() {
    let mut manager: ConnectionManager<u32, String> =
        ConnectionManager::new("amqps://example.com/".to_string(), None, None);
    manager.install_connection(1);
    manager.install_connection(2);
    assert_eq!(*manager.get_connection().unwrap(), 1);
}

#[test]
fn test_authorization_is_recorded_once() {
    let mut manager: Manager = ConnectionManager::new("amqps://example.com/".to_string(), None, None);
    let path = "amqps://example.com/path".to_string();
    assert!(manager.authorization_needed(&path));
    assert_eq!(
        manager.authorization(&path).unwrap_err().kind(),
        ErrorKind::UnableToAddAuthenticationToken
    );
    assert!(manager.record_authorization(path.clone(), "mock_token".to_string()).is_ok());
    assert!(!manager.authorization_needed(&path));
    assert_eq!(manager.authorization(&path).unwrap(), "mock_token");
    let again = manager.record_authorization(path.clone(), "second".to_string());
    assert_eq!(again.unwrap_err().kind(), ErrorKind::UnableToAddAuthenticationToken);
    assert_eq!(manager.authorization(&path).unwrap(), "second");
}

#[test]
fn test_authorization_scopes_insert_and_get() {
    let mut scopes: AuthorizationScopes<u32> = AuthorizationScopes::new();
    assert_eq!(scopes.insert("a".to_string(), 1), None);
    assert_eq!(scopes.insert("b".to_string(), 2), None);
    assert_eq!(scopes.insert("a".to_string(), 3), Some(1));
    assert_eq!(scopes.get(&"a".to_string()), Some(&3));
    assert_eq!(scopes.get(&"b".to_string()), Some(&2));
    assert_eq!(scopes.get(&"c".to_string()), None);
    assert!(scopes.contains_key(&"b".to_string()));
}

#[test]
fn test_connection_properties_order() {
    let properties = connection_properties(
        "agent".to_string(),
        "1.0".to_string(),
        "linux".to_string(),
        "eventhubs".to_string(),
    );
    let entries = properties;
    assert_eq!(entries.len(), 4);
    assert_eq!(entries[0].0 .0, "user-agent");
    assert_eq!(entries[1].0 .0, "version");
    assert_eq!(entries[2].0 .0, "platform");
    assert_eq!(entries[3].0 .0, "product");
    assert_eq!(entries[3].1, AmqpValue::String("eventhubs".to_string()));
}

fn response(entries: Vec<(&str, AmqpValue)>) -> AmqpOrderedMap<String, AmqpValue> {
    let mut map = AmqpOrderedMap::new();
    for (k, v) in entries {
        map.insert(k.to_string(), v);
    }
    map
}

fn s(v: &str) -> AmqpValue {
    AmqpValue::String(v.to_string())
}

#[test]
fn test_eventhub_url() {
    assert_eq!(eventhub_url("ns.servicebus.windows.net", "hub"), "amqps://ns.servicebus.windows.net/hub");
}

#[test]
fn test_eventhub_properties_from_response() {
    let r = response(vec![
        ("name", s("hub")),
        ("type", s("com.microsoft:eventhub")),
        ("created_at", AmqpValue::TimeStamp(AmqpTimestamp(1000))),
        ("partition_count", AmqpValue::Int(2)),
        ("partition_ids", AmqpValue::Array(vec![s("0"), s("1")])),
    ]);
    assert!(eventhub_response_is_readable(&r));
    let p = eventhub_properties_from_response(&r).unwrap();
    assert_eq!(p.name, "hub");
    assert_eq!(p.created_on, AmqpTimestamp(1000));
    assert_eq!(p.partition_ids, vec!["0".to_string(), "1".to_string()]);
}

#[test]
fn test_eventhub_response_missing_property() {
    let r = response(vec![("name", s("hub")), ("type", s("t"))]);
    assert!(eventhub_response_is_readable(&r));
    let e = eventhub_properties_from_response(&r).unwrap_err();
    assert_eq!(e.kind(), ErrorKind::InvalidManagementResponse);
    assert_eq!(e.message(), "Invalid management response");
}

#[test]
fn test_eventhub_response_bad_partition_ids() {
    let r = response(vec![
        ("name", s("hub")),
        ("type", s("t")),
        ("created_at", AmqpValue::TimeStamp(AmqpTimestamp(0))),
        ("partition_count", AmqpValue::Int(2)),
        ("partition_ids", AmqpValue::Array(vec![s("0"), AmqpValue::Int(1)])),
    ]);
    let e = eventhub_properties_from_response(&r).unwrap_err();
    assert_eq!(e.kind(), ErrorKind::InvalidManagementResponse);
    let not_array = response(vec![
        ("name", s("hub")),
        ("type", s("t")),
        ("created_at", AmqpValue::TimeStamp(AmqpTimestamp(0))),
        ("partition_count", AmqpValue::Int(2)),
        ("partition_ids", s("0")),
    ]);
    assert!(eventhub_properties_from_response(&not_array).is_err());
    let unreadable = response(vec![
        ("name", AmqpValue::Int(3)),
        ("type", s("t")),
        ("created_at", AmqpValue::TimeStamp(AmqpTimestamp(0))),
        ("partition_count", AmqpValue::Int(2)),
        ("partition_ids", AmqpValue::Array(vec![])),
    ]);
    assert!(!eventhub_response_is_readable(&unreadable));
}

fn partition_response() -> AmqpOrderedMap<String, AmqpValue> {
    response(vec![
        ("name", s("hub")),
        ("type", s("com.microsoft:partition")),
        ("partition", s("3")),
        ("begin_sequence_number_epoch", AmqpValue::Long(0)),
        ("begin_sequence_number", AmqpValue::Long(10)),
        ("last_enqueued_sequence_number_epoch", AmqpValue::Long(0)),
        ("last_enqueued_sequence_number", AmqpValue::Long(42)),
        ("last_enqueued_offset", s("4096")),
        ("last_enqueued_time_utc", AmqpValue::TimeStamp(AmqpTimestamp(123))),
        ("is_partition_empty", AmqpValue::Boolean(false)),
    ])
}

#[test]
fn test_partition_properties_from_response() {
    let r = partition_response();
    assert!(partition_response_is_readable(&r));
    let p = partition_properties_from_response(&r).unwrap();
    assert_eq!(p.id, "3");
    assert_eq!(p.eventhub, "hub");
    assert_eq!(p.beginning_sequence_number, 10);
    assert_eq!(p.last_enqueued_sequence_number, 42);
    assert_eq!(p.last_enqueued_offset, "4096");
    assert_eq!(p.last_enqueued_time_utc, AmqpTimestamp(123));
    assert!(!p.is_empty);
}

#[test]
fn test_partition_response_missing_property() {
    let mut r = partition_response();
    r.remove(&"is_partition_empty".to_string());
    let e = partition_properties_from_response(&r).unwrap_err();
    assert_eq!(e.kind(), ErrorKind::InvalidManagementResponse);
    let mut wrong = partition_response();
    wrong.remove(&"begin_sequence_number".to_string());
    wrong.insert("begin_sequence_number".to_string(), s("ten"));
    assert!(!partition_response_is_readable(&wrong));
}

#[test]
fn test_partition_request_properties() {
    let p = partition_request_properties("0".to_string(), "hub".to_string());
    let entries = p.iter();
    assert_eq!(entries[0], ("partition_id".to_string(), s("0")));
    assert_eq!(entries[1], ("name".to_string(), s("hub")));
}

#[test]
fn test_expiry_millis() {
    assert_eq!(expiry_millis(1_700_000_000), Some(1_700_000_000_000));
    assert_eq!(expiry_millis(i64::MAX / 10), None);
    assert_eq!(expiry_millis(-5), Some(-5000));
}

#[test]
fn test_management_request_by_name_and_partition() {
    match management_request("com.microsoft:eventhub".to_string(), "hub".to_string(), None) {
        ManagementRequest::ReadByName { name, entity_type } => {
            assert_eq!(name, "hub");
            assert_eq!(entity_type, "com.microsoft:eventhub");
        }
        _ => panic!("expected a read by name"),
    }
    let props = partition_request_properties("7".to_string(), "hub".to_string());
    match management_request("com.microsoft:eventhub".to_string(), "hub".to_string(), Some(props)) {
        ManagementRequest::Partition(request) => {
            assert_eq!(request.operation(), "READ");
            assert_eq!(request.manageable_entity_type(), Some("com.microsoft:partition".to_string()));
            assert_eq!(request.locales(), None);
            let encoded = request.encode_application_properties();
            let entries = encoded.iter();
            assert_eq!(entries[0], ("name".to_string(), s("hub")));
            assert_eq!(entries[1], ("partition".to_string(), s("7")));
        }
        _ => panic!("expected a partition request"),
    }
}

#[test]
fn test_get_partition_request_new() {
    let request = GetPartitionRequest::new("eh".to_string(), "1".to_string());
    let encoded = request.encode_application_properties();
    assert_eq!(encoded.len(), 2);
    assert_eq!(encoded.iter()[0].1, s("eh"));
    assert_eq!(encoded.iter()[1].1, s("1"));
}

#[test]
fn test_producer_client_decisions() {
    let options = ProducerClientOptions::builder().with_application_id("app".to_string()).build();
    let mut client: ProducerClient<u8, u16, String> =
        ProducerClient::new("ns.example.net".to_string(), "hub".to_string(), options);
    assert_eq!(client.url(), "amqps://ns.example.net/hub");
    assert_eq!(client.connection_name(), "app");
    let url = client.url().clone();
    assert_eq!(client.authorization_needed(&url).unwrap_err().kind(), ErrorKind::MissingConnection);
    assert_eq!(client.management_needed().unwrap_err().kind(), ErrorKind::MissingConnection);
    client.install_connection(1);
    assert_eq!(client.authorization_needed(&url).unwrap(), true);
    client.record_token(url.clone(), "token".to_string());
    assert_eq!(client.authorization_needed(&url).unwrap(), false);
    assert_eq!(client.management_needed().unwrap(), true);
    client.install_management(9);
    assert_eq!(client.management_needed().unwrap(), false);
    assert_eq!(client.management(), Some(&9));
    let props = client.partition_call_properties("2".to_string());
    assert_eq!(props.iter()[1], ("name".to_string(), s("hub")));
}

#[test]
fn test_producer_connection_name_without_application() {
    let client: ProducerClient<u8, u16, String> = ProducerClient::new(
        "ns".to_string(),
        "hub".to_string(),
        ProducerClientOptions::builder().build(),
    );
    let name = client.connection_name();
    assert_eq!(name.len(), 36);
    assert!(uuid::Uuid::parse_str(&name).is_ok());
    assert_eq!(uuid::Uuid::parse_str(&name).unwrap().get_version_num(), 4);
    assert_eq!(name, name.to_lowercase());
    assert_eq!(&name[8..9], "-");
    assert_eq!(&name[23..24], "-");
}

fn shape(is_public: bool, statement_count: usize, return_type: ReturnTypeShape) -> Option<FunctionShape> {
    Some(FunctionShape { is_public, statement_count, return_type })
}

fn path(last: &str) -> ReturnTypeShape {
    ReturnTypeShape::Path { last_segment: last.to_string() }
}

#[test]
fn test_is_subclient_declaration() {
    // pub fn get_operation_templates_lro_client(&self) -> OperationTemplatesLroClient { .. }
    assert!(is_subclient_declaration(&shape(true, 1, path("OperationTemplatesLroClient"))));
    // pub fn not_a_subclient() {}
    assert!(!is_subclient_declaration(&shape(true, 0, ReturnTypeShape::Unit)));
    // pub fn operation_templates_lro_client() -> OperationTemplatesLroClient { .. }
    assert!(is_subclient_declaration(&shape(true, 1, path("OperationTemplatesLroClient"))));
}

#[test]
fn test_subclient_rule_edges() {
    assert!(!is_subclient_declaration(&None));
    assert!(!is_subclient_declaration(&shape(false, 1, path("FooClient"))));
    assert!(!is_subclient_declaration(&shape(true, 2, path("FooClient"))));
    assert!(!is_subclient_declaration(&shape(true, 1, path("ClientFoo"))));
    assert!(!is_subclient_declaration(&shape(true, 1, ReturnTypeShape::Other)));
    assert!(is_subclient_declaration(&shape(true, 1, path("Client"))));
    assert!(text_ends_with("abc", ""));
    assert!(!text_ends_with("ab", "abc"));
}

#[test]
fn test_mock_receiver_first_in_first_out() {
    let mut receiver = MockAmqpReceiver::new();
    assert!(!receiver.is_attached());
    receiver.attach();
    receiver.queue_mock_delivery(vec![1, 2]);
    receiver.queue_delivery(MockAmqpDelivery::new().with_id(7));
    let first = receiver.receive_delivery();
    match &first.message.body {
        AmqpMessageBody::Binary(sections) => assert_eq!(sections, &vec![vec![1u8, 2]]),
        _ => panic!("expected a data body"),
    }
    let second = receiver.receive_delivery();
    assert_eq!(second.delivery_id, 7);
    let third = receiver.receive_delivery();
    assert_eq!(third.delivery_id, 1);
    assert_eq!(third.delivery_tag, vec![1, 2, 3]);
    assert_eq!(third.message_format, Some(0));
    assert!(matches!(third.message.body, AmqpMessageBody::Empty));
}

#[test]
fn test_mock_sender_records_messages() {
    let mut sender = MockAmqpSender::new();
    assert_eq!(sender.max_message_size(), Some(1024));
    sender.attach("link".to_string());
    assert!(sender.is_attached());
    let message = AmqpMessage::builder().with_body(AmqpMessageBody::from_binary(vec![5])).build();
    assert_eq!(sender.send(message), AmqpOutcome::Accepted);
    sender.set_next_outcome(AmqpOutcome::Rejected);
    let message = AmqpMessage::builder().build();
    assert_eq!(sender.send(message), AmqpOutcome::Rejected);
    assert_eq!(sender.get_sent_messages().len(), 2);
    sender.set_max_message_size(None);
    assert_eq!(sender.max_message_size(), None);
    sender.detach();
    assert!(!sender.is_attached());
}

#[test]
fn test_authorize_path_answers_held_token() {
    let mut manager: Manager = ConnectionManager::new("amqps://example.com/".to_string(), None, None);
    let path = "amqps://example.com/hub".to_string();
    assert!(matches!(manager.authorize_path(&path), AuthorizeAction::Fetch));
    assert!(manager.record_authorization(path.clone(), "token".to_string()).is_ok());
    match manager.authorize_path(&path) {
        AuthorizeAction::Held(t) => assert_eq!(t, "token"),
        AuthorizeAction::Fetch => panic!("token expected"),
    }
    match manager.authorize_path(&path) {
        AuthorizeAction::Held(t) => assert_eq!(t, "token"),
        AuthorizeAction::Fetch => panic!("token expected"),
    }
    assert!(matches!(manager.authorize_path(&"other".to_string()), AuthorizeAction::Fetch));
}

#[test]
fn test_producer_management_requests() {
    let client: ProducerClient<u8, u16, String> = ProducerClient::new(
        "ns.servicebus.windows.net".to_string(),
        "hub".to_string(),
        ProducerClientOptions::builder().build(),
    );
    match client.eventhub_properties_request() {
        ManagementRequest::ReadByName { name, entity_type } => {
            assert_eq!(name, "hub");
            assert_eq!(entity_type, "com.microsoft:eventhub");
        }
        ManagementRequest::Partition(_) => panic!("read by name expected"),
    }
    match client.partition_properties_request("3".to_string()) {
        ManagementRequest::Partition(request) => {
            assert_eq!(request.manageable_entity_type(), Some("com.microsoft:partition".to_string()));
            let properties = request.encode_application_properties();
            assert_eq!(properties.get("name".to_string()), Some(&AmqpValue::String("hub".to_string())));
            assert_eq!(properties.get("partition".to_string()), Some(&AmqpValue::String("3".to_string())));
        }
        ManagementRequest::ReadByName { .. } => panic!("partition read expected"),
    }
}
