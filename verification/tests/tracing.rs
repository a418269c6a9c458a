use azure_messaging_eventhubs::telemetry::otel::{
    OpenTelemetrySpan, OpenTelemetryTracer, array_to_otel, attribute_to_key_value, attributes_to_keyvalues, value_to_otel, OtelArray,
    OtelValue,
};
use opentelemetry::trace::{TraceContextExt, Tracer};
use azure_messaging_eventhubs::telemetry::{
    attribute_records, plan_tracing_span, span_field_for_key, Attribute, AttributeArray,
    AttributeRecord, AttributeValue, RecordedValue, SpanField, SpanKind, SpanStatus,
    TracingTracer, TracingTracerProvider,
};

fn attr(key: &str, value: AttributeValue) -> Attribute {
    Attribute { key: key.to_string(), value }
}

fn text(s: &str) -> AttributeValue {
    AttributeValue::String(s.to_string())
}

fn recorded_text(record: &AttributeRecord) -> Option<(SpanField, String)> {
    match record {
        AttributeRecord::Recorded { field, value: RecordedValue::Text(s) } => Some((*field, s.clone())),
        _ => None,
    }
}

fn recorded_integer(record: &AttributeRecord) -> Option<(SpanField, i64)> {
    match record {
        AttributeRecord::Recorded { field, value: RecordedValue::Integer(v) } => Some((*field, *v)),
        _ => None,
    }
}

fn recorded_rendered(record: &AttributeRecord) -> Option<SpanField> {
    match record {
        AttributeRecord::Recorded { field, value: RecordedValue::Rendered } => Some(*field),
        _ => None,
    }
}

#[test]
fn test_create_tracer_provider_sdk_tracer() {
    let _tracer_provider = TracingTracerProvider::new();
}

#[test]
fn span_test_open_telemetry_span_new() {
    let plan = plan_tracing_span(
        "test_span",
        SpanKind::Client,
        "test",
        Some("0.1.0"),
        &vec![attr("az.namespace", text("Microsoft.EventHub"))],
    );
    assert_eq!(plan.name, "test_span");
    assert_eq!(plan.kind, SpanKind::Client);
    assert_eq!(plan.package_name, "test");
    assert_eq!(plan.package_version, "0.1.0");
    assert_eq!(plan.records.len(), 1);
    assert_eq!(
        recorded_text(&plan.records[0]),
        Some((SpanField::AzNamespace, "Microsoft.EventHub".to_string()))
    );
}

#[test]
fn test_open_telemetry_span_propagate() {
    // Every declared field records the attribute of its own name.
    let names = [
        ("az.client_request_id", SpanField::AzClientRequestId),
        ("az.namespace", SpanField::AzNamespace),
        ("error.type", SpanField::ErrorType),
        ("az.service_request.id", SpanField::AzServiceRequestId),
        ("http.request.resend_count", SpanField::HttpRequestResendCount),
        ("http.response.status_code", SpanField::HttpResponseStatusCode),
        ("http.request.method", SpanField::HttpRequestMethod),
        ("server.address", SpanField::ServerAddress),
        ("server.port", SpanField::ServerPort),
        ("url.full", SpanField::UrlFull),
    ];
    for (name, field) in names.iter() {
        assert_eq!(span_field_for_key(&name.to_string()), Some(*field));
        assert_eq!(field.attribute_name(), *name);
    }
    assert_eq!(span_field_for_key(&"traceparent".to_string()), None);
    assert_eq!(span_field_for_key(&"url".to_string()), None);
}

#[test]
fn test_open_telemetry_span_hierarchy() {
    // Attributes are recorded in the order they were given.
    let records = attribute_records(&vec![
        attr("http.request.method", text("GET")),
        attr("server.port", AttributeValue::I64(443)),
        attr("custom.key", text("ignored")),
        attr("url.full", text("https://example.com/path")),
    ]);
    assert_eq!(records.len(), 4);
    assert_eq!(recorded_text(&records[0]), Some((SpanField::HttpRequestMethod, "GET".to_string())));
    assert_eq!(recorded_integer(&records[1]), Some((SpanField::ServerPort, 443)));
    assert!(matches!(records[2], AttributeRecord::NotRecorded));
    assert_eq!(
        recorded_text(&records[3]),
        Some((SpanField::UrlFull, "https://example.com/path".to_string()))
    );
}

#[test]
fn test_open_telemetry_span_start_with_parent() {
    let provider = TracingTracerProvider::new();
    let tracer = provider.get_tracer(Some("Microsoft.EventHub"), "azure_messaging_eventhubs", None);
    let plan = tracer.start_span(
        "send",
        SpanKind::Producer,
        vec![attr("az.client_request_id", text("0000-1111"))],
    );
    assert_eq!(plan.package_name, "azure_messaging_eventhubs");
    assert_eq!(plan.package_version, "");
    assert_eq!(plan.kind, SpanKind::Producer);
    assert_eq!(
        recorded_text(&plan.records[0]),
        Some((SpanField::AzClientRequestId, "0000-1111".to_string()))
    );
}

#[test]
fn test_open_telemetry_span_start_with_current() {
    let tracer = TracingTracer::new(None, "pkg", Some("1.2.3"));
    assert_eq!(tracer.namespace(), None);
    let plan = tracer.start_span("current", SpanKind::default(), Vec::new());
    assert_eq!(plan.kind, SpanKind::Internal);
    assert_eq!(plan.package_version, "1.2.3");
    assert!(plan.records.is_empty());
}

#[test]
fn span_test_open_telemetry_span_set_attribute() {
    let records = attribute_records(&vec![
        attr("http.response.status_code", AttributeValue::I64(404)),
        attr("http.response.status_code", text("not a number")),
        attr("server.address", AttributeValue::I64(7)),
        attr("http.request.resend_count", AttributeValue::U64(2)),
    ]);
    assert_eq!(recorded_integer(&records[0]), Some((SpanField::HttpResponseStatusCode, 404)));
    assert_eq!(recorded_rendered(&records[1]), Some(SpanField::HttpResponseStatusCode));
    assert_eq!(recorded_rendered(&records[2]), Some(SpanField::ServerAddress));
    assert_eq!(recorded_rendered(&records[3]), Some(SpanField::HttpRequestResendCount));
}

#[test]
fn span_test_open_telemetry_span_record_error() {
    let records = attribute_records(&vec![
        attr("error.type", text("resource not found")),
        attr("error.type", AttributeValue::Bool(true)),
    ]);
    assert_eq!(
        recorded_text(&records[0]),
        Some((SpanField::ErrorType, "resource not found".to_string()))
    );
    assert_eq!(recorded_rendered(&records[1]), Some(SpanField::ErrorType));
}

#[test]
fn span_test_open_telemetry_span_set_status() {
    let ok = SpanStatus::Success;
    let error = SpanStatus::Error { description: "test error".to_string() };
    assert!(matches!(ok, SpanStatus::Success));
    match error {
        SpanStatus::Error { description } => assert_eq!(description, "test error"),
        _ => panic!("expected an error status"),
    }
    assert!(matches!(SpanStatus::Unset, SpanStatus::Unset));
}

#[test]
fn tracer_test_create_tracer() {
    let provider = TracingTracerProvider::new();
    let tracer = provider.get_tracer(Some("test_tracer"), "test", Some("1.0.0"));
    assert_eq!(tracer.namespace(), Some("test_tracer"));
    assert_eq!(tracer.crate_name(), "test");
    assert_eq!(tracer.crate_version(), Some("1.0.0"));
}

#[test]
fn tracer_test_create_tracer_with_sdk_tracer() {
    let tracer = TracingTracer::new(Some("test_tracer"), "test", Some("1.0.0"));
    assert_eq!(tracer.namespace(), Some("test_tracer"));
}

#[test]
fn tracer_test_create_span_from_tracer() {
    let tracer = TracingTracer::new(Some("test_tracer"), "test", Some("1.0.0"));
    let plan = tracer.start_span("test_span", SpanKind::Internal, Vec::new());
    assert_eq!(plan.name, "test_span");
    assert_eq!(plan.package_name, "test");
    assert_eq!(plan.package_version, "1.0.0");
}

#[test]
fn attribute_value_converts_to_otel_value() {
    assert!(matches!(value_to_otel(AttributeValue::Bool(true)), OtelValue::Bool(true)));
    assert!(matches!(value_to_otel(text("test")), OtelValue::String(ref s) if s == "test"));
    assert!(matches!(value_to_otel(AttributeValue::U64(u64::MAX)), OtelValue::I64(-1)));
    assert!(matches!(value_to_otel(AttributeValue::U64(5)), OtelValue::I64(5)));
    let bits = 1.5f64.to_bits();
    assert!(matches!(value_to_otel(AttributeValue::F64(bits)), OtelValue::F64(b) if b == bits));
}

#[test]
fn attribute_converts_to_keyvalue() {
    let kv = attribute_to_key_value(Attribute {
        key: "test.key".to_string(),
        value: AttributeValue::String("test.value".to_string()),
    });
    assert_eq!(kv.key.as_str(), "test.key");
    assert!(matches!(kv.value, OtelValue::String(ref s) if s == "test.value"));
}

#[test]
fn attribute_array_converts_correctly() {
    let array = AttributeArray::String(vec!["a".to_string(), "b".to_string()]);
    match array_to_otel(array) {
        OtelArray::String(values) => assert_eq!(values, vec!["a".to_string(), "b".to_string()]),
        _ => panic!("expected a string array"),
    }
    match array_to_otel(AttributeArray::U64(vec![1, u64::MAX])) {
        OtelArray::I64(values) => assert_eq!(values, vec![1, -1]),
        _ => panic!("expected an integer array"),
    }
}

#[test]
fn attributes_to_keyvalues_converts_collection() {
    let attributes = vec![
        Attribute {
            key: "service.name".to_string(),
            value: AttributeValue::String("test".to_string()),
        },
        Attribute { key: "success".to_string(), value: AttributeValue::Bool(true) },
    ];

    let keyvalues = attributes_to_keyvalues(attributes);
    assert_eq!(keyvalues.len(), 2);
    assert_eq!(keyvalues[0].key, "service.name");
    assert_eq!(keyvalues[1].key, "success");
    assert!(matches!(keyvalues[1].value, OtelValue::Bool(true)));
}

#[test]
fn test_open_telemetry_tracer_keeps_its_tracer() {
    let tracer = OpenTelemetryTracer::new(opentelemetry::global::tracer("test_tracer"));
    let _inner = tracer.inner();
}

#[test]
fn test_open_telemetry_span_keeps_its_context() {
    let tracer = OpenTelemetryTracer::new(opentelemetry::global::tracer("test_tracer"));
    let span = tracer.inner().start("test_span");
    let mut span = OpenTelemetrySpan::new(span, opentelemetry::Context::new());
    assert!(!span.context().has_active_span());
    let _inner = span.span_mut();
}

#[test]
fn test_span_fields_recorded_under_declared_names() {
    assert_eq!(SpanField::AzClientRequestId.declared_name(), "az_client_request_id");
    assert_eq!(SpanField::AzServiceRequestId.declared_name(), "az_service_request_id");
    assert_eq!(SpanField::HttpResponseStatusCode.declared_name(), "http_response_status_code");
    assert_eq!(SpanField::UrlFull.declared_name(), "url_full");
    assert_eq!(SpanField::ServerPort.attribute_name(), "server.port");
    assert_eq!(SpanField::ServerPort.declared_name(), "server_port");
}
