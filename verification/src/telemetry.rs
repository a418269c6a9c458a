//! Distributed-tracing model: span kinds and statuses, span attributes, and the
//! decisions that turn a list of attributes into the fields that a tracing span
//! records.
use std::sync::Arc;
use vstd::prelude::*;

pub mod otel;


verus! {

/// The kind of a span.
#[derive(Debug, Clone, Copy, PartialEq, Eq, Structural)]
pub enum SpanKind {
    Internal,
    Client,
    Server,
    Producer,
    Consumer,
}

impl Default for SpanKind {
    fn default() -> (r: SpanKind)
        ensures
            r == SpanKind::Internal,
    {
        SpanKind::Internal
    }
}

/// The status of a span.
#[derive(Debug, Clone)]
pub enum SpanStatus {
    Unset,
    Success,
    Error { description: String },
}

/// An array of attribute values, all of one type. Floating-point values are held
/// by their IEEE-754 bit pattern.
#[derive(Debug, Clone)]
pub enum AttributeArray {
    Bool(Vec<bool>),
    I64(Vec<i64>),
    U64(Vec<u64>),
    F64(Vec<u64>),
    String(Vec<String>),
}

/// The value of a span attribute. A floating-point value is held by its IEEE-754
/// bit pattern.
#[derive(Debug, Clone)]
pub enum AttributeValue {
    Bool(bool),
    I64(i64),
    U64(u64),
    F64(u64),
    String(String),
    Array(AttributeArray),
}

/// A named span attribute.
#[derive(Debug, Clone)]
pub struct Attribute {
    pub key: String,
    pub value: AttributeValue,
}

impl From<bool> for AttributeValue {
    fn from(v: bool) -> (r: AttributeValue)
        ensures
            r == AttributeValue::Bool(v),
    {
        AttributeValue::Bool(v)
    }
}

impl vstd::std_specs::convert::FromSpecImpl<bool> for AttributeValue {
    open spec fn obeys_from_spec() -> bool {
        true
    }

    open spec fn from_spec(v: bool) -> AttributeValue {
        AttributeValue::Bool(v)
    }
}

impl From<i64> for AttributeValue {
    fn from(v: i64) -> (r: AttributeValue)
        ensures
            r == AttributeValue::I64(v),
    {
        AttributeValue::I64(v)
    }
}

impl vstd::std_specs::convert::FromSpecImpl<i64> for AttributeValue {
    open spec fn obeys_from_spec() -> bool {
        true
    }

    open spec fn from_spec(v: i64) -> AttributeValue {
        AttributeValue::I64(v)
    }
}

impl From<String> for AttributeValue {
    fn from(v: String) -> (r: AttributeValue)
        ensures
            r == AttributeValue::String(v),
    {
        AttributeValue::String(v)
    }
}

impl vstd::std_specs::convert::FromSpecImpl<String> for AttributeValue {
    open spec fn obeys_from_spec() -> bool {
        true
    }

    open spec fn from_spec(v: String) -> AttributeValue {
        AttributeValue::String(v)
    }
}

impl From<Vec<bool>> for AttributeArray {
    fn from(v: Vec<bool>) -> (r: AttributeArray)
        ensures
            r == AttributeArray::Bool(v),
    {
        AttributeArray::Bool(v)
    }
}

impl vstd::std_specs::convert::FromSpecImpl<Vec<bool>> for AttributeArray {
    open spec fn obeys_from_spec() -> bool {
        true
    }

    open spec fn from_spec(v: Vec<bool>) -> AttributeArray {
        AttributeArray::Bool(v)
    }
}

impl From<Vec<i64>> for AttributeArray {
    fn from(v: Vec<i64>) -> (r: AttributeArray)
        ensures
            r == AttributeArray::I64(v),
    {
        AttributeArray::I64(v)
    }
}

impl vstd::std_specs::convert::FromSpecImpl<Vec<i64>> for AttributeArray {
    open spec fn obeys_from_spec() -> bool {
        true
    }

    open spec fn from_spec(v: Vec<i64>) -> AttributeArray {
        AttributeArray::I64(v)
    }
}

impl From<Vec<String>> for AttributeArray {
    fn from(v: Vec<String>) -> (r: AttributeArray)
        ensures
            r == AttributeArray::String(v),
    {
        AttributeArray::String(v)
    }
}

impl vstd::std_specs::convert::FromSpecImpl<Vec<String>> for AttributeArray {
    open spec fn obeys_from_spec() -> bool {
        true
    }

    open spec fn from_spec(v: Vec<String>) -> AttributeArray {
        AttributeArray::String(v)
    }
}

/// The well-known fields that a tracing span declares, one for each attribute
/// name of the Azure and HTTP semantic conventions that it records.
#[derive(Debug, Clone, Copy, PartialEq, Eq, Structural)]
pub enum SpanField {
    AzClientRequestId,
    AzNamespace,
    ErrorType,
    AzServiceRequestId,
    HttpRequestResendCount,
    HttpResponseStatusCode,
    HttpRequestMethod,
    ServerAddress,
    ServerPort,
    UrlFull,
}

/// The attribute name that a span field records.
pub open spec fn field_attribute_name(field: SpanField) -> Seq<char> {
    match field {
        SpanField::AzClientRequestId => "az.client_request_id"@,
        SpanField::AzNamespace => "az.namespace"@,
        SpanField::ErrorType => "error.type"@,
        SpanField::AzServiceRequestId => "az.service_request.id"@,
        SpanField::HttpRequestResendCount => "http.request.resend_count"@,
        SpanField::HttpResponseStatusCode => "http.response.status_code"@,
        SpanField::HttpRequestMethod => "http.request.method"@,
        SpanField::ServerAddress => "server.address"@,
        SpanField::ServerPort => "server.port"@,
        SpanField::UrlFull => "url.full"@,
    }
}

/// The name under which a span declares a field: the attribute name with each
/// `.` written as `_`, as field names of the `tracing` crate are written.
pub open spec fn field_declared_name(field: SpanField) -> Seq<char> {
    match field {
        SpanField::AzClientRequestId => "az_client_request_id"@,
        SpanField::AzNamespace => "az_namespace"@,
        SpanField::ErrorType => "error_type"@,
        SpanField::AzServiceRequestId => "az_service_request_id"@,
        SpanField::HttpRequestResendCount => "http_request_resend_count"@,
        SpanField::HttpResponseStatusCode => "http_response_status_code"@,
        SpanField::HttpRequestMethod => "http_request_method"@,
        SpanField::ServerAddress => "server_address"@,
        SpanField::ServerPort => "server_port"@,
        SpanField::UrlFull => "url_full"@,
    }
}

/// The fields that hold an integer; the others hold text.
pub open spec fn field_holds_integer(field: SpanField) -> bool {
    ||| field == SpanField::HttpRequestResendCount
    ||| field == SpanField::HttpResponseStatusCode
    ||| field == SpanField::ServerPort
}

/// The field that records the attribute named `key`, if any. The names are
/// tried in the order in which the span declares its fields.
pub open spec fn field_for_key(key: Seq<char>) -> Option<SpanField> {
    if key == field_attribute_name(SpanField::AzClientRequestId) {
        Some(SpanField::AzClientRequestId)
    } else if key == field_attribute_name(SpanField::AzNamespace) {
        Some(SpanField::AzNamespace)
    } else if key == field_attribute_name(SpanField::ErrorType) {
        Some(SpanField::ErrorType)
    } else if key == field_attribute_name(SpanField::AzServiceRequestId) {
        Some(SpanField::AzServiceRequestId)
    } else if key == field_attribute_name(SpanField::HttpRequestResendCount) {
        Some(SpanField::HttpRequestResendCount)
    } else if key == field_attribute_name(SpanField::HttpResponseStatusCode) {
        Some(SpanField::HttpResponseStatusCode)
    } else if key == field_attribute_name(SpanField::HttpRequestMethod) {
        Some(SpanField::HttpRequestMethod)
    } else if key == field_attribute_name(SpanField::ServerAddress) {
        Some(SpanField::ServerAddress)
    } else if key == field_attribute_name(SpanField::ServerPort) {
        Some(SpanField::ServerPort)
    } else if key == field_attribute_name(SpanField::UrlFull) {
        Some(SpanField::UrlFull)
    } else {
        None
    }
}

/// What a span field records for an attribute.
#[derive(Debug, Clone)]
pub enum RecordedValue {
    /// The attribute's text.
    Text(String),
    /// The attribute's integer.
    Integer(i64),
    /// The debug rendering of the attribute's value: the value is not of the
    /// field's type.
    Rendered,
}

/// What a span does with one attribute.
#[derive(Debug, Clone)]
pub enum AttributeRecord {
    /// The attribute is recorded in a declared field.
    Recorded { field: SpanField, value: RecordedValue },
    /// No field is declared for the attribute's name; it is only logged.
    NotRecorded,
}

/// What `field` records for an attribute value: the value itself where it is of
/// the field's type, its debug rendering otherwise.
pub open spec fn recorded_value(field: SpanField, value: AttributeValue) -> RecordedValue {
    if field_holds_integer(field) {
        match value {
            AttributeValue::I64(v) => RecordedValue::Integer(v),
            _ => RecordedValue::Rendered,
        }
    } else {
        match value {
            AttributeValue::String(s) => RecordedValue::Text(s),
            _ => RecordedValue::Rendered,
        }
    }
}

/// What a span does with the attribute `attr`.
pub open spec fn attribute_record(attr: Attribute) -> AttributeRecord {
    match field_for_key(attr.key@) {
        Some(field) => AttributeRecord::Recorded { field, value: recorded_value(field, attr.value) },
        None => AttributeRecord::NotRecorded,
    }
}

impl SpanField {
    /// The attribute name that this field records.
    pub fn attribute_name(&self) -> (r: &'static str)
        ensures
            r@ == field_attribute_name(*self),
    {
        match self {
            SpanField::AzClientRequestId => "az.client_request_id",
            SpanField::AzNamespace => "az.namespace",
            SpanField::ErrorType => "error.type",
            SpanField::AzServiceRequestId => "az.service_request.id",
            SpanField::HttpRequestResendCount => "http.request.resend_count",
            SpanField::HttpResponseStatusCode => "http.response.status_code",
            SpanField::HttpRequestMethod => "http.request.method",
            SpanField::ServerAddress => "server.address",
            SpanField::ServerPort => "server.port",
            SpanField::UrlFull => "url.full",
        }
    }

    /// The name under which a span declares this field, and under which the
    /// attribute's value is recorded.
    pub fn declared_name(&self) -> (r: &'static str)
        ensures
            r@ == field_declared_name(*self),
            r@.len() == field_attribute_name(*self).len(),
            forall|i: int|
                0 <= i < r@.len() ==> #[trigger] r@[i] == (if field_attribute_name(*self)[i] == '.' {
                    '_'
                } else {
                    field_attribute_name(*self)[i]
                }),
    {
        proof {
            reveal_strlit("az_client_request_id");
            reveal_strlit("az.client_request_id");
            reveal_strlit("az_namespace");
            reveal_strlit("az.namespace");
            reveal_strlit("error_type");
            reveal_strlit("error.type");
            reveal_strlit("az_service_request_id");
            reveal_strlit("az.service_request.id");
            reveal_strlit("http_request_resend_count");
            reveal_strlit("http.request.resend_count");
            reveal_strlit("http_response_status_code");
            reveal_strlit("http.response.status_code");
            reveal_strlit("http_request_method");
            reveal_strlit("http.request.method");
            reveal_strlit("server_address");
            reveal_strlit("server.address");
            reveal_strlit("server_port");
            reveal_strlit("server.port");
            reveal_strlit("url_full");
            reveal_strlit("url.full");
        }
        match self {
            SpanField::AzClientRequestId => "az_client_request_id",
            SpanField::AzNamespace => "az_namespace",
            SpanField::ErrorType => "error_type",
            SpanField::AzServiceRequestId => "az_service_request_id",
            SpanField::HttpRequestResendCount => "http_request_resend_count",
            SpanField::HttpResponseStatusCode => "http_response_status_code",
            SpanField::HttpRequestMethod => "http_request_method",
            SpanField::ServerAddress => "server_address",
            SpanField::ServerPort => "server_port",
            SpanField::UrlFull => "url_full",
        }
    }

    /// Whether this field holds an integer rather than text.
    pub fn holds_integer(&self) -> (r: bool)
        ensures
            r == field_holds_integer(*self),
    {
        match self {
            SpanField::HttpRequestResendCount | SpanField::HttpResponseStatusCode
            | SpanField::ServerPort => true,
            _ => false,
        }
    }
}

/// The fields in the order in which a span declares them.
pub fn declared_fields() -> (r: Vec<SpanField>)
    ensures
        r@ == seq![
            SpanField::AzClientRequestId,
            SpanField::AzNamespace,
            SpanField::ErrorType,
            SpanField::AzServiceRequestId,
            SpanField::HttpRequestResendCount,
            SpanField::HttpResponseStatusCode,
            SpanField::HttpRequestMethod,
            SpanField::ServerAddress,
            SpanField::ServerPort,
            SpanField::UrlFull,
        ],
{
    vec![
        SpanField::AzClientRequestId,
        SpanField::AzNamespace,
        SpanField::ErrorType,
        SpanField::AzServiceRequestId,
        SpanField::HttpRequestResendCount,
        SpanField::HttpResponseStatusCode,
        SpanField::HttpRequestMethod,
        SpanField::ServerAddress,
        SpanField::ServerPort,
        SpanField::UrlFull,
    ]
}

/// Whether `key` is the text `name`.
fn key_is(key: &String, name: &str) -> (r: bool)
    ensures
        r == (key@ == name@),
{
    let expected = name.to_string();
    *key == expected
}

/// The field that records the attribute named `key`, if any.
pub fn span_field_for_key(key: &String) -> (r: Option<SpanField>)
    ensures
        r == field_for_key(key@),
{
    let fields = declared_fields();
    let mut i: usize = 0;
    while i < fields.len()
        invariant
            fields@ == seq![
                SpanField::AzClientRequestId,
                SpanField::AzNamespace,
                SpanField::ErrorType,
                SpanField::AzServiceRequestId,
                SpanField::HttpRequestResendCount,
                SpanField::HttpResponseStatusCode,
                SpanField::HttpRequestMethod,
                SpanField::ServerAddress,
                SpanField::ServerPort,
                SpanField::UrlFull,
            ],
            i <= fields.len(),
            forall|j: int| 0 <= j < i ==> key@ != field_attribute_name(#[trigger] fields@[j]),
        decreases fields.len() - i,
    {
        let field = fields[i];
        if key_is(key, field.attribute_name()) {
            proof {
                assert(forall|j: int| 0 <= j < i ==> key@ != field_attribute_name(#[trigger] fields@[j]));
            }
            return Some(field);
        }
        i += 1;
    }
    proof {
        assert(key@ != field_attribute_name(fields@[9]));
    }
    None
}

/// What the span does with the attribute `attr`.
pub fn record_for_attribute(attr: &Attribute) -> (r: AttributeRecord)
    ensures
        r == attribute_record(*attr),
{
    match span_field_for_key(&attr.key) {
        None => AttributeRecord::NotRecorded,
        Some(field) => {
            let value = if field.holds_integer() {
                match &attr.value {
                    AttributeValue::I64(v) => RecordedValue::Integer(*v),
                    _ => RecordedValue::Rendered,
                }
            } else {
                match &attr.value {
                    AttributeValue::String(s) => RecordedValue::Text(s.clone()),
                    _ => RecordedValue::Rendered,
                }
            };
            AttributeRecord::Recorded { field, value }
        },
    }
}

/// What a span does with each of `attributes`, in order.
pub fn attribute_records(attributes: &Vec<Attribute>) -> (r: Vec<AttributeRecord>)
    ensures
        r.len() == attributes.len(),
        forall|i: int| 0 <= i < r.len() ==> r[i] == attribute_record(#[trigger] attributes[i]),
{
    let mut records: Vec<AttributeRecord> = Vec::new();
    let mut i: usize = 0;
    while i < attributes.len()
        invariant
            i <= attributes.len(),
            records.len() == i,
            forall|j: int| 0 <= j < i ==> records[j] == attribute_record(#[trigger] attributes[j]),
        decreases attributes.len() - i,
    {
        records.push(record_for_attribute(&attributes[i]));
        i += 1;
    }
    records
}

/// An attribute is recorded exactly when its key is the name of a declared
/// field, and then in that field, as its value where the value is of the
/// field's type and as its rendering otherwise.
pub proof fn lemma_attribute_recorded_in_named_field(attr: Attribute)
    ensures
        attribute_record(attr) is Recorded <==> exists|f: SpanField|
            field_attribute_name(f) == attr.key@,
        attribute_record(attr) matches AttributeRecord::Recorded { field, value } ==> {
            &&& field_attribute_name(field) == attr.key@
            &&& value == recorded_value(field, attr.value)
        },
{
    if exists|f: SpanField| field_attribute_name(f) == attr.key@ {
        let f = choose|f: SpanField| field_attribute_name(f) == attr.key@;
        assert(field_for_key(attr.key@) is Some) by {
            match f {
                SpanField::AzClientRequestId => {},
                SpanField::AzNamespace => {},
                SpanField::ErrorType => {},
                SpanField::AzServiceRequestId => {},
                SpanField::HttpRequestResendCount => {},
                SpanField::HttpResponseStatusCode => {},
                SpanField::HttpRequestMethod => {},
                SpanField::ServerAddress => {},
                SpanField::ServerPort => {},
                SpanField::UrlFull => {},
            }
        }
    }
    if let Some(field) = field_for_key(attr.key@) {
        assert(field_attribute_name(field) == attr.key@);
    }
}

/// How a tracing span is made: its fixed fields, and what it records of each of

/// How a span records each attribute, by its name: an integer under
/// `http.request.resend_count`, `http.response.status_code` or `server.port` is
/// recorded as that integer; a text under any of the other seven declared names
/// is recorded as that text; a value of another kind under a declared name is
/// recorded as its rendering; and an attribute under any other name is not
/// recorded.
pub proof fn lemma_attribute_recording_by_name(attr: Attribute)
    ensures
        attr.key@ == "http.request.resend_count"@ ==> attribute_record(attr) == (AttributeRecord::Recorded {
            field: SpanField::HttpRequestResendCount,
            value: match attr.value {
                AttributeValue::I64(v) => RecordedValue::Integer(v),
                _ => RecordedValue::Rendered,
            },
        }),
        attr.key@ == "http.response.status_code"@ ==> attribute_record(attr) == (AttributeRecord::Recorded {
            field: SpanField::HttpResponseStatusCode,
            value: match attr.value {
                AttributeValue::I64(v) => RecordedValue::Integer(v),
                _ => RecordedValue::Rendered,
            },
        }),
        attr.key@ == "server.port"@ ==> attribute_record(attr) == (AttributeRecord::Recorded {
            field: SpanField::ServerPort,
            value: match attr.value {
                AttributeValue::I64(v) => RecordedValue::Integer(v),
                _ => RecordedValue::Rendered,
            },
        }),
        attr.key@ == "az.client_request_id"@ ==> attribute_record(attr) == (AttributeRecord::Recorded {
            field: SpanField::AzClientRequestId,
            value: match attr.value {
                AttributeValue::String(s) => RecordedValue::Text(s),
                _ => RecordedValue::Rendered,
            },
        }),
        attr.key@ == "az.namespace"@ ==> attribute_record(attr) == (AttributeRecord::Recorded {
            field: SpanField::AzNamespace,
            value: match attr.value {
                AttributeValue::String(s) => RecordedValue::Text(s),
                _ => RecordedValue::Rendered,
            },
        }),
        attr.key@ == "error.type"@ ==> attribute_record(attr) == (AttributeRecord::Recorded {
            field: SpanField::ErrorType,
            value: match attr.value {
                AttributeValue::String(s) => RecordedValue::Text(s),
                _ => RecordedValue::Rendered,
            },
        }),
        attr.key@ == "az.service_request.id"@ ==> attribute_record(attr) == (AttributeRecord::Recorded {
            field: SpanField::AzServiceRequestId,
            value: match attr.value {
                AttributeValue::String(s) => RecordedValue::Text(s),
                _ => RecordedValue::Rendered,
            },
        }),
        attr.key@ == "http.request.method"@ ==> attribute_record(attr) == (AttributeRecord::Recorded {
            field: SpanField::HttpRequestMethod,
            value: match attr.value {
                AttributeValue::String(s) => RecordedValue::Text(s),
                _ => RecordedValue::Rendered,
            },
        }),
        attr.key@ == "server.address"@ ==> attribute_record(attr) == (AttributeRecord::Recorded {
            field: SpanField::ServerAddress,
            value: match attr.value {
                AttributeValue::String(s) => RecordedValue::Text(s),
                _ => RecordedValue::Rendered,
            },
        }),
        attr.key@ == "url.full"@ ==> attribute_record(attr) == (AttributeRecord::Recorded {
            field: SpanField::UrlFull,
            value: match attr.value {
                AttributeValue::String(s) => RecordedValue::Text(s),
                _ => RecordedValue::Rendered,
            },
        }),
        (attr.key@ != "http.request.resend_count"@ && attr.key@ != "http.response.status_code"@ && attr.key@ != "server.port"@ && attr.key@ != "az.client_request_id"@ && attr.key@ != "az.namespace"@ && attr.key@ != "error.type"@ && attr.key@ != "az.service_request.id"@ && attr.key@ != "http.request.method"@ && attr.key@ != "server.address"@ && attr.key@ != "url.full"@) ==> attribute_record(attr) == AttributeRecord::NotRecorded,
{
    reveal_strlit("http.request.resend_count");
    reveal_strlit("http.response.status_code");
    reveal_strlit("server.port");
    reveal_strlit("az.client_request_id");
    reveal_strlit("az.namespace");
    reveal_strlit("error.type");
    reveal_strlit("az.service_request.id");
    reveal_strlit("http.request.method");
    reveal_strlit("server.address");
    reveal_strlit("url.full");
    if attr.key@ == "az.client_request_id"@ {
        assert(field_for_key(attr.key@) == Some(SpanField::AzClientRequestId));
    }
    if attr.key@ == "az.namespace"@ {
        assert("az.namespace"@.len() != "az.client_request_id"@.len());
        assert("az.namespace"@ != "az.client_request_id"@);
        assert(field_for_key(attr.key@) == Some(SpanField::AzNamespace));
    }
    if attr.key@ == "error.type"@ {
        assert("error.type"@.len() != "az.client_request_id"@.len());
        assert("error.type"@ != "az.client_request_id"@);
        assert("error.type"@.len() != "az.namespace"@.len());
        assert("error.type"@ != "az.namespace"@);
        assert(field_for_key(attr.key@) == Some(SpanField::ErrorType));
    }
    if attr.key@ == "az.service_request.id"@ {
        assert("az.service_request.id"@.len() != "az.client_request_id"@.len());
        assert("az.service_request.id"@ != "az.client_request_id"@);
        assert("az.service_request.id"@.len() != "az.namespace"@.len());
        assert("az.service_request.id"@ != "az.namespace"@);
        assert("az.service_request.id"@.len() != "error.type"@.len());
        assert("az.service_request.id"@ != "error.type"@);
        assert(field_for_key(attr.key@) == Some(SpanField::AzServiceRequestId));
    }
    if attr.key@ == "http.request.resend_count"@ {
        assert("http.request.resend_count"@.len() != "az.client_request_id"@.len());
        assert("http.request.resend_count"@ != "az.client_request_id"@);
        assert("http.request.resend_count"@.len() != "az.namespace"@.len());
        assert("http.request.resend_count"@ != "az.namespace"@);
        assert("http.request.resend_count"@.len() != "error.type"@.len());
        assert("http.request.resend_count"@ != "error.type"@);
        assert("http.request.resend_count"@.len() != "az.service_request.id"@.len());
        assert("http.request.resend_count"@ != "az.service_request.id"@);
        assert(field_for_key(attr.key@) == Some(SpanField::HttpRequestResendCount));
    }
    if attr.key@ == "http.response.status_code"@ {
        assert("http.response.status_code"@.len() != "az.client_request_id"@.len());
        assert("http.response.status_code"@ != "az.client_request_id"@);
        assert("http.response.status_code"@.len() != "az.namespace"@.len());
        assert("http.response.status_code"@ != "az.namespace"@);
        assert("http.response.status_code"@.len() != "error.type"@.len());
        assert("http.response.status_code"@ != "error.type"@);
        assert("http.response.status_code"@.len() != "az.service_request.id"@.len());
        assert("http.response.status_code"@ != "az.service_request.id"@);
        assert("http.response.status_code"@[7] != "http.request.resend_count"@[7]);
        assert("http.response.status_code"@ != "http.request.resend_count"@);
        assert(field_for_key(attr.key@) == Some(SpanField::HttpResponseStatusCode));
    }
    if attr.key@ == "http.request.method"@ {
        assert("http.request.method"@.len() != "az.client_request_id"@.len());
        assert("http.request.method"@ != "az.client_request_id"@);
        assert("http.request.method"@.len() != "az.namespace"@.len());
        assert("http.request.method"@ != "az.namespace"@);
        assert("http.request.method"@.len() != "error.type"@.len());
        assert("http.request.method"@ != "error.type"@);
        assert("http.request.method"@.len() != "az.service_request.id"@.len());
        assert("http.request.method"@ != "az.service_request.id"@);
        assert("http.request.method"@.len() != "http.request.resend_count"@.len());
        assert("http.request.method"@ != "http.request.resend_count"@);
        assert("http.request.method"@.len() != "http.response.status_code"@.len());
        assert("http.request.method"@ != "http.response.status_code"@);
        assert(field_for_key(attr.key@) == Some(SpanField::HttpRequestMethod));
    }
    if attr.key@ == "server.address"@ {
        assert("server.address"@.len() != "az.client_request_id"@.len());
        assert("server.address"@ != "az.client_request_id"@);
        assert("server.address"@.len() != "az.namespace"@.len());
        assert("server.address"@ != "az.namespace"@);
        assert("server.address"@.len() != "error.type"@.len());
        assert("server.address"@ != "error.type"@);
        assert("server.address"@.len() != "az.service_request.id"@.len());
        assert("server.address"@ != "az.service_request.id"@);
        assert("server.address"@.len() != "http.request.resend_count"@.len());
        assert("server.address"@ != "http.request.resend_count"@);
        assert("server.address"@.len() != "http.response.status_code"@.len());
        assert("server.address"@ != "http.response.status_code"@);
        assert("server.address"@.len() != "http.request.method"@.len());
        assert("server.address"@ != "http.request.method"@);
        assert(field_for_key(attr.key@) == Some(SpanField::ServerAddress));
    }
    if attr.key@ == "server.port"@ {
        assert("server.port"@.len() != "az.client_request_id"@.len());
        assert("server.port"@ != "az.client_request_id"@);
        assert("server.port"@.len() != "az.namespace"@.len());
        assert("server.port"@ != "az.namespace"@);
        assert("server.port"@.len() != "error.type"@.len());
        assert("server.port"@ != "error.type"@);
        assert("server.port"@.len() != "az.service_request.id"@.len());
        assert("server.port"@ != "az.service_request.id"@);
        assert("server.port"@.len() != "http.request.resend_count"@.len());
        assert("server.port"@ != "http.request.resend_count"@);
        assert("server.port"@.len() != "http.response.status_code"@.len());
        assert("server.port"@ != "http.response.status_code"@);
        assert("server.port"@.len() != "http.request.method"@.len());
        assert("server.port"@ != "http.request.method"@);
        assert("server.port"@.len() != "server.address"@.len());
        assert("server.port"@ != "server.address"@);
        assert(field_for_key(attr.key@) == Some(SpanField::ServerPort));
    }
    if attr.key@ == "url.full"@ {
        assert("url.full"@.len() != "az.client_request_id"@.len());
        assert("url.full"@ != "az.client_request_id"@);
        assert("url.full"@.len() != "az.namespace"@.len());
        assert("url.full"@ != "az.namespace"@);
        assert("url.full"@.len() != "error.type"@.len());
        assert("url.full"@ != "error.type"@);
        assert("url.full"@.len() != "az.service_request.id"@.len());
        assert("url.full"@ != "az.service_request.id"@);
        assert("url.full"@.len() != "http.request.resend_count"@.len());
        assert("url.full"@ != "http.request.resend_count"@);
        assert("url.full"@.len() != "http.response.status_code"@.len());
        assert("url.full"@ != "http.response.status_code"@);
        assert("url.full"@.len() != "http.request.method"@.len());
        assert("url.full"@ != "http.request.method"@);
        assert("url.full"@.len() != "server.address"@.len());
        assert("url.full"@ != "server.address"@);
        assert("url.full"@.len() != "server.port"@.len());
        assert("url.full"@ != "server.port"@);
        assert(field_for_key(attr.key@) == Some(SpanField::UrlFull));
    }
}

/// the attributes it was started with.
#[derive(Debug, Clone)]
pub struct TracingSpanPlan {
    /// The span's name.
    pub name: String,
    /// The span's kind.
    pub kind: SpanKind,
    /// The package that started the span; also the initial `az.namespace`.
    pub package_name: String,
    /// The package's version, empty where none was given.
    pub package_version: String,
    /// What the span records of each attribute, in order.
    pub records: Vec<AttributeRecord>,
}

/// The text of an optional version: empty where there is none.
pub open spec fn version_text(version: Option<&'static str>) -> Seq<char> {
    match version {
        Some(v) => v@,
        None => Seq::empty(),
    }
}

/// What a span started by `package_name` (at `package_version`) with
/// `attributes` records.
pub open spec fn is_span_plan(
    plan: TracingSpanPlan,
    name: Seq<char>,
    kind: SpanKind,
    package_name: Seq<char>,
    package_version: Option<&'static str>,
    attributes: Seq<Attribute>,
) -> bool {
    &&& plan.name@ == name
    &&& plan.kind == kind
    &&& plan.package_name@ == package_name
    &&& plan.package_version@ == version_text(package_version)
    &&& plan.records.len() == attributes.len()
    &&& forall|i: int|
        0 <= i < attributes.len() ==> plan.records[i] == attribute_record(#[trigger] attributes[i])
}

/// Plans a span named `name` of kind `kind`, started by `package_name` at
/// `package_version`, with `attributes`.
pub fn plan_tracing_span(
    name: &str,
    kind: SpanKind,
    package_name: &str,
    package_version: Option<&'static str>,
    attributes: &Vec<Attribute>,
) -> (r: TracingSpanPlan)
    ensures
        is_span_plan(r, name@, kind, package_name@, package_version, attributes@),
{
    let package_version = match package_version {
        Some(v) => v.to_string(),
        None => String::new(),
    };
    TracingSpanPlan {
        name: name.to_string(),
        kind,
        package_name: package_name.to_string(),
        package_version,
        records: attribute_records(attributes),
    }
}

/// A tracer that starts spans of the `tracing` crate on behalf of one package.
#[derive(Debug)]
pub struct TracingTracer {
    namespace: Option<&'static str>,
    crate_name: &'static str,
    crate_version: Option<&'static str>,
}

impl TracingTracer {
    /// The namespace the tracer was made with.
    pub closed spec fn namespace_of(&self) -> Option<&'static str> {
        self.namespace
    }

    /// The package name the tracer was made with.
    pub closed spec fn crate_name_of(&self) -> &'static str {
        self.crate_name
    }

    /// The package version the tracer was made with.
    pub closed spec fn crate_version_of(&self) -> Option<&'static str> {
        self.crate_version
    }

    /// A tracer for the package `crate_name` at `crate_version`, in `namespace`.
    pub fn new(
        namespace: Option<&'static str>,
        crate_name: &'static str,
        crate_version: Option<&'static str>,
    ) -> (r: Self)
        ensures
            r.namespace_of() == namespace,
            r.crate_name_of() == crate_name,
            r.crate_version_of() == crate_version,
    {
        TracingTracer { namespace, crate_name, crate_version }
    }

    /// The tracer's namespace.
    pub fn namespace(&self) -> (r: Option<&'static str>)
        ensures
            r == self.namespace_of(),
    {
        self.namespace
    }

    /// The package name the tracer starts spans for.
    pub fn crate_name(&self) -> (r: &'static str)
        ensures
            r == self.crate_name_of(),
    {
        self.crate_name
    }

    /// The package version the tracer starts spans for.
    pub fn crate_version(&self) -> (r: Option<&'static str>)
        ensures
            r == self.crate_version_of(),
    {
        self.crate_version
    }

    /// Plans the span that the tracer starts for `name`, `kind` and
    /// `attributes`: it belongs to the tracer's package.
    pub fn start_span(&self, name: &str, kind: SpanKind, attributes: Vec<Attribute>) -> (r:
        TracingSpanPlan)
        ensures
            is_span_plan(
                r,
                name@,
                kind,
                self.crate_name_of()@,
                self.crate_version_of(),
                attributes@,
            ),
    {
        plan_tracing_span(name, kind, self.crate_name, self.crate_version, &attributes)
    }
}

/// The provider of tracers that start spans of the `tracing` crate.
#[derive(Debug)]
pub struct TracingTracerProvider {}

impl TracingTracerProvider {
    /// A new provider.
    pub fn new() -> (r: Arc<Self>) {
        Arc::new(TracingTracerProvider {})
    }

    /// The tracer for the package `crate_name` at `crate_version`, in `namespace`.
    pub fn get_tracer(
        &self,
        namespace: Option<&'static str>,
        crate_name: &'static str,
        crate_version: Option<&'static str>,
    ) -> (r: TracingTracer)
        ensures
            r.namespace_of() == namespace,
            r.crate_name_of() == crate_name,
            r.crate_version_of() == crate_version,
    {
        TracingTracer::new(namespace, crate_name, crate_version)
    }
}

} // verus!
