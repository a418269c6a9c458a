//! The logic of the Event Hubs producer client: its options, the URL of its
//! Event Hub, and what it reads from the management responses about the Event
//! Hub and its partitions.
use crate::error::{ErrorKind, EventHubsError};
use crate::models::{EventHubPartitionProperties, EventHubProperties};
use crate::value::{lemma_lookup_by_text, text_lookup, AmqpOrderedMap, AmqpTimestamp, AmqpValue};
use vstd::prelude::*;
use vstd::string::StringExecFns;

pub mod client;



verus! {

/// The retry options of `azure_core` (`azure_core::http::RetryOptions`): the
/// producer client carries them as they are and reads nothing inside them.
#[verifier::external_type_specification]
#[verifier::external_body]
pub struct ExRetryOptions(azure_core::http::RetryOptions);

/// The options of a producer client.
pub struct ProducerClientOptions {
    application_id: Option<String>,
    retry_options: Option<azure_core::http::RetryOptions>,
}

impl ProducerClientOptions {
    /// The application id, where one was given.
    pub closed spec fn application_id_of(&self) -> Option<String> {
        self.application_id
    }

    /// Whether retry options were given.
    pub closed spec fn has_retry_options(&self) -> bool {
        self.retry_options is Some
    }

    /// A builder with no options set.
    pub fn builder() -> (r: ProducerClientOptionsBuilder)
        ensures
            r.pending().application_id_of() is None,
            !r.pending().has_retry_options(),
    {
        ProducerClientOptionsBuilder::new()
    }

    /// The application id, where one was given.
    pub fn application_id(&self) -> (r: &Option<String>)
        ensures
            *r == self.application_id_of(),
    {
        &self.application_id
    }

    /// The retry options, where they were given.
    pub fn retry_options(&self) -> (r: &Option<azure_core::http::RetryOptions>)
        ensures
            r is Some == self.has_retry_options(),
    {
        &self.retry_options
    }
}

/// Builds [`ProducerClientOptions`].
pub struct ProducerClientOptionsBuilder {
    options: ProducerClientOptions,
}

impl ProducerClientOptionsBuilder {
    /// The options that `build` will hand back.
    pub closed spec fn pending(&self) -> ProducerClientOptions {
        self.options
    }

    /// A builder with no options set.
    pub fn new() -> (r: Self)
        ensures
            r.pending().application_id_of() is None,
            !r.pending().has_retry_options(),
    {
        ProducerClientOptionsBuilder {
            options: ProducerClientOptions { application_id: None, retry_options: None },
        }
    }

    /// Sets the application id.
    pub fn with_application_id(self, application_id: String) -> (r: Self)
        ensures
            r.pending().application_id_of() == Some(application_id),
            r.pending().has_retry_options() == self.pending().has_retry_options(),
    {
        let mut b = self;
        b.options.application_id = Some(application_id);
        b
    }

    /// Sets the retry options.
    pub fn with_retry_options(self, retry_options: azure_core::http::RetryOptions) -> (r: Self)
        ensures
            r.pending().application_id_of() == self.pending().application_id_of(),
            r.pending().has_retry_options(),
    {
        let mut b = self;
        b.options.retry_options = Some(retry_options);
        b
    }

    /// The options set so far.
    pub fn build(self) -> (r: ProducerClientOptions)
        ensures
            r == self.pending(),
    {
        self.options
    }
}

/// The AMQP URL of the Event Hub `eventhub` in the namespace
/// `fully_qualified_namespace`.
pub open spec fn eventhub_url_text(fully_qualified_namespace: Seq<char>, eventhub: Seq<char>) -> Seq<
    char,
> {
    "amqps://"@ + fully_qualified_namespace + "/"@ + eventhub
}

/// The AMQP URL of the Event Hub `eventhub` in the namespace
/// `fully_qualified_namespace`: `amqps://{namespace}/{eventhub}`.
pub fn eventhub_url(fully_qualified_namespace: &str, eventhub: &str) -> (r: String)
    ensures
        r@ == eventhub_url_text(fully_qualified_namespace@, eventhub@),
{
    let mut url = "amqps://".to_string();
    url.append(fully_qualified_namespace);
    url.append("/");
    url.append(eventhub);
    url
}

/// The value that a management response holds under `name`.
fn response_value<'a>(response: &'a AmqpOrderedMap<String, AmqpValue>, name: &str) -> (r: Option<
    &'a AmqpValue,
>)
    ensures
        match text_lookup(response@, name@) {
            Some(v) => r == Some(&v),
            None => r is None,
        },
{
    let key = name.to_string();
    proof {
        lemma_lookup_by_text(response@, key);
    }
    response.get(key)
}

/// A management response about an Event Hub holds every property that the
/// client requires of it.
pub open spec fn eventhub_response_complete(response: Seq<(String, AmqpValue)>) -> bool {
    &&& text_lookup(response, "name"@) is Some
    &&& text_lookup(response, "type"@) is Some
    &&& text_lookup(response, "created_at"@) is Some
    &&& text_lookup(response, "partition_count"@) is Some
    &&& text_lookup(response, "partition_ids"@) is Some
}

/// The client can read a complete Event Hub response: its name is a string and
/// its creation time a timestamp.
pub open spec fn eventhub_response_readable(response: Seq<(String, AmqpValue)>) -> bool {
    eventhub_response_complete(response) ==> {
        &&& text_lookup(response, "name"@) matches Some(AmqpValue::String(_))
        &&& text_lookup(response, "created_at"@) matches Some(AmqpValue::TimeStamp(_))
    }
}

/// The partition ids of an Event Hub response are an array of strings.
pub open spec fn partition_ids_valid(response: Seq<(String, AmqpValue)>) -> bool {
    text_lookup(response, "partition_ids"@) matches Some(AmqpValue::Array(ids)) && forall|i: int|
        0 <= i < ids@.len() ==> #[trigger] ids@[i] is String
}

/// `p` holds what the Event Hub response `response` says.
pub open spec fn eventhub_properties_from(
    response: Seq<(String, AmqpValue)>,
    p: EventHubProperties,
) -> bool {
    &&& text_lookup(response, "name"@) == Some(AmqpValue::String(p.name))
    &&& text_lookup(response, "created_at"@) == Some(AmqpValue::TimeStamp(p.created_on))
    &&& text_lookup(response, "partition_ids"@) matches Some(AmqpValue::Array(ids)) && {
        &&& ids@.len() == p.partition_ids@.len()
        &&& forall|i: int|
            0 <= i < ids@.len() ==> ids@[i] == AmqpValue::String(#[trigger] p.partition_ids@[i])
    }
}

/// Whether a management response about an Event Hub can be read: where it holds
/// every required property, its name is a string and its creation time a
/// timestamp.
pub fn eventhub_response_is_readable(response: &AmqpOrderedMap<String, AmqpValue>) -> (r: bool)
    ensures
        r == eventhub_response_readable(response@),
{
    let complete = response_value(response, "name").is_some() && response_value(
        response,
        "type",
    ).is_some() && response_value(response, "created_at").is_some() && response_value(
        response,
        "partition_count",
    ).is_some() && response_value(response, "partition_ids").is_some();
    if !complete {
        return true;
    }
    let name_ok = match response_value(response, "name") {
        Some(AmqpValue::String(_)) => true,
        _ => false,
    };
    let created_ok = match response_value(response, "created_at") {
        Some(AmqpValue::TimeStamp(_)) => true,
        _ => false,
    };
    name_ok && created_ok
}

/// Reads the properties of an Event Hub from the management response about it.
///
/// A response that lacks one of the properties `name`, `type`, `created_at`,
/// `partition_count` and `partition_ids`, or whose partition ids are not an
/// array of strings, is an error of kind `InvalidManagementResponse`.
pub fn eventhub_properties_from_response(response: &AmqpOrderedMap<String, AmqpValue>) -> (r: Result<
    EventHubProperties,
    EventHubsError,
>)
    requires
        eventhub_response_readable(response@),
    ensures
        eventhub_response_complete(response@) && partition_ids_valid(response@) ==> (r matches Ok(
            p,
        ) && eventhub_properties_from(response@, p)),
        !(eventhub_response_complete(response@) && partition_ids_valid(response@)) ==> (r matches Err(
            e,
        ) && e.kind_of() == ErrorKind::InvalidManagementResponse),
{
    let name_value = response_value(response, "name");
    let type_value = response_value(response, "type");
    let created_value = response_value(response, "created_at");
    let count_value = response_value(response, "partition_count");
    let ids_value = response_value(response, "partition_ids");
    if name_value.is_none() || type_value.is_none() || created_value.is_none()
        || count_value.is_none() || ids_value.is_none() {
        return Err(EventHubsError::new(ErrorKind::InvalidManagementResponse));
    }
    let name = match name_value {
        Some(AmqpValue::String(s)) => s.clone(),
        _ => {
            proof {
                assert(false);
            }
            String::new()
        },
    };
    let created_on = match created_value {
        Some(AmqpValue::TimeStamp(t)) => *t,
        _ => {
            proof {
                assert(false);
            }
            AmqpTimestamp(0)
        },
    };
    let ids = match ids_value {
        Some(AmqpValue::Array(ids)) => ids,
        _ => {
            return Err(EventHubsError::new(ErrorKind::InvalidManagementResponse));
        },
    };
    let mut partition_ids: Vec<String> = Vec::new();
    let mut i: usize = 0;
    while i < ids.len()
        invariant
            text_lookup(response@, "partition_ids"@) == Some(AmqpValue::Array(*ids)),
            i <= ids.len(),
            partition_ids@.len() == i,
            forall|j: int| 0 <= j < i ==> ids@[j] == AmqpValue::String(#[trigger] partition_ids@[j]),
        decreases ids.len() - i,
    {
        match &ids[i] {
            AmqpValue::String(id) => {
                partition_ids.push(id.clone());
            },
            _ => {
                return Err(EventHubsError::new(ErrorKind::InvalidManagementResponse));
            },
        }
        i += 1;
    }
    proof {
        assert forall|j: int| 0 <= j < ids@.len() implies #[trigger] ids@[j] is String by {
            assert(ids@[j] == AmqpValue::String(partition_ids@[j]));
        }
    }
    Ok(EventHubProperties { name, created_on, partition_ids })
}

/// The integer of a value that is known to be a long.
fn long_of(value: Option<&AmqpValue>) -> (r: i64)
    requires
        value matches Some(AmqpValue::Long(_)),
    ensures
        value == Some(&AmqpValue::Long(r)),
{
    match value {
        Some(AmqpValue::Long(v)) => *v,
        _ => {
            proof {
                assert(false);
            }
            0
        },
    }
}

/// The text of a value that is known to be a string.
fn string_of(value: Option<&AmqpValue>) -> (r: String)
    requires
        value matches Some(AmqpValue::String(_)),
    ensures
        value == Some(&AmqpValue::String(r)),
{
    match value {
        Some(AmqpValue::String(s)) => s.clone(),
        _ => {
            proof {
                assert(false);
            }
            String::new()
        },
    }
}

/// A management response about a partition holds every property that the
/// client requires of it.
pub open spec fn partition_response_complete(response: Seq<(String, AmqpValue)>) -> bool {
    &&& text_lookup(response, "name"@) is Some
    &&& text_lookup(response, "type"@) is Some
    &&& text_lookup(response, "partition"@) is Some
    &&& text_lookup(response, "begin_sequence_number_epoch"@) is Some
    &&& text_lookup(response, "begin_sequence_number"@) is Some
    &&& text_lookup(response, "last_enqueued_sequence_number_epoch"@) is Some
    &&& text_lookup(response, "last_enqueued_sequence_number"@) is Some
    &&& text_lookup(response, "last_enqueued_offset"@) is Some
    &&& text_lookup(response, "last_enqueued_time_utc"@) is Some
    &&& text_lookup(response, "is_partition_empty"@) is Some
}

/// The client can read a complete partition response: each property it reads
/// is of the type it reads it as.
pub open spec fn partition_response_readable(response: Seq<(String, AmqpValue)>) -> bool {
    partition_response_complete(response) ==> {
        &&& text_lookup(response, "begin_sequence_number"@) matches Some(AmqpValue::Long(_))
        &&& text_lookup(response, "partition"@) matches Some(AmqpValue::String(_))
        &&& text_lookup(response, "name"@) matches Some(AmqpValue::String(_))
        &&& text_lookup(response, "last_enqueued_sequence_number"@) matches Some(AmqpValue::Long(_))
        &&& text_lookup(response, "last_enqueued_offset"@) matches Some(AmqpValue::String(_))
        &&& text_lookup(response, "last_enqueued_time_utc"@) matches Some(AmqpValue::TimeStamp(_))
        &&& text_lookup(response, "is_partition_empty"@) matches Some(AmqpValue::Boolean(_))
    }
}

/// `p` holds what the partition response `response` says.
pub open spec fn partition_properties_from(
    response: Seq<(String, AmqpValue)>,
    p: EventHubPartitionProperties,
) -> bool {
    &&& text_lookup(response, "begin_sequence_number"@) == Some(
        AmqpValue::Long(p.beginning_sequence_number),
    )
    &&& text_lookup(response, "partition"@) == Some(AmqpValue::String(p.id))
    &&& text_lookup(response, "name"@) == Some(AmqpValue::String(p.eventhub))
    &&& text_lookup(response, "last_enqueued_sequence_number"@) == Some(
        AmqpValue::Long(p.last_enqueued_sequence_number),
    )
    &&& text_lookup(response, "last_enqueued_offset"@) == Some(
        AmqpValue::String(p.last_enqueued_offset),
    )
    &&& text_lookup(response, "last_enqueued_time_utc"@) == Some(
        AmqpValue::TimeStamp(p.last_enqueued_time_utc),
    )
    &&& text_lookup(response, "is_partition_empty"@) == Some(AmqpValue::Boolean(p.is_empty))
}

/// Whether a management response about a partition holds every required
/// property.
fn partition_response_has_all(response: &AmqpOrderedMap<String, AmqpValue>) -> (r: bool)
    ensures
        r == partition_response_complete(response@),
{
    response_value(response, "name").is_some() && response_value(response, "type").is_some()
        && response_value(response, "partition").is_some() && response_value(
        response,
        "begin_sequence_number_epoch",
    ).is_some() && response_value(response, "begin_sequence_number").is_some() && response_value(
        response,
        "last_enqueued_sequence_number_epoch",
    ).is_some() && response_value(response, "last_enqueued_sequence_number").is_some()
        && response_value(response, "last_enqueued_offset").is_some() && response_value(
        response,
        "last_enqueued_time_utc",
    ).is_some() && response_value(response, "is_partition_empty").is_some()
}

/// Whether a management response about a partition can be read: where it holds
/// every required property, each property read is of the type it is read as.
pub fn partition_response_is_readable(response: &AmqpOrderedMap<String, AmqpValue>) -> (r: bool)
    ensures
        r == partition_response_readable(response@),
{
    if !partition_response_has_all(response) {
        return true;
    }
    let begin_ok = matches!(response_value(response, "begin_sequence_number"), Some(AmqpValue::Long(_)));
    let partition_ok = matches!(response_value(response, "partition"), Some(AmqpValue::String(_)));
    let name_ok = matches!(response_value(response, "name"), Some(AmqpValue::String(_)));
    let last_ok = matches!(
        response_value(response, "last_enqueued_sequence_number"),
        Some(AmqpValue::Long(_))
    );
    let offset_ok = matches!(
        response_value(response, "last_enqueued_offset"),
        Some(AmqpValue::String(_))
    );
    let time_ok = matches!(
        response_value(response, "last_enqueued_time_utc"),
        Some(AmqpValue::TimeStamp(_))
    );
    let empty_ok = matches!(
        response_value(response, "is_partition_empty"),
        Some(AmqpValue::Boolean(_))
    );
    begin_ok && partition_ok && name_ok && last_ok && offset_ok && time_ok && empty_ok
}

/// Reads the properties of a partition from the management response about it.
///
/// A response that lacks one of the properties `name`, `type`, `partition`,
/// `begin_sequence_number_epoch`, `begin_sequence_number`,
/// `last_enqueued_sequence_number_epoch`, `last_enqueued_sequence_number`,
/// `last_enqueued_offset`, `last_enqueued_time_utc` and `is_partition_empty` is
/// an error of kind `InvalidManagementResponse`.
pub fn partition_properties_from_response(response: &AmqpOrderedMap<String, AmqpValue>) -> (r:
    Result<EventHubPartitionProperties, EventHubsError>)
    requires
        partition_response_readable(response@),
    ensures
        partition_response_complete(response@) ==> (r matches Ok(p) && partition_properties_from(
            response@,
            p,
        )),
        !partition_response_complete(response@) ==> (r matches Err(e) && e.kind_of()
            == ErrorKind::InvalidManagementResponse),
{
    if !partition_response_has_all(response) {
        return Err(EventHubsError::new(ErrorKind::InvalidManagementResponse));
    }
    let beginning_sequence_number = long_of(response_value(response, "begin_sequence_number"));
    let id = string_of(response_value(response, "partition"));
    let eventhub = string_of(response_value(response, "name"));
    let last_enqueued_sequence_number = long_of(
        response_value(response, "last_enqueued_sequence_number"),
    );
    let last_enqueued_offset = string_of(response_value(response, "last_enqueued_offset"));
    let last_enqueued_time_utc = match response_value(response, "last_enqueued_time_utc") {
        Some(AmqpValue::TimeStamp(t)) => *t,
        _ => {
            proof {
                assert(false);
            }
            AmqpTimestamp(0)
        },
    };
    let is_empty = match response_value(response, "is_partition_empty") {
        Some(AmqpValue::Boolean(b)) => *b,
        _ => {
            proof {
                assert(false);
            }
            false
        },
    };
    Ok(
        EventHubPartitionProperties {
            id,
            eventhub,
            beginning_sequence_number,
            last_enqueued_sequence_number,
            last_enqueued_offset,
            last_enqueued_time_utc,
            is_empty,
        },
    )
}

/// The application properties of a request for a partition's properties: the
/// partition id, then the Event Hub's name.
pub fn partition_request_properties(partition_id: String, eventhub: String) -> (r: AmqpOrderedMap<
    String,
    AmqpValue,
>)
    ensures
        r@.len() == 2,
        r@[0].0@ == "partition_id"@ && r@[0].1 == AmqpValue::String(partition_id),
        r@[1].0@ == "name"@ && r@[1].1 == AmqpValue::String(eventhub),
{
    let mut properties: AmqpOrderedMap<String, AmqpValue> = AmqpOrderedMap::new();
    properties.insert("partition_id".to_string(), AmqpValue::String(partition_id));
    properties.insert("name".to_string(), AmqpValue::String(eventhub));
    properties
}

/// Milliseconds since the epoch of a token expiry given in seconds since the
/// epoch; `None` where the product does not fit.
pub fn expiry_millis(unix_timestamp: i64) -> (r: Option<i64>)
    ensures
        match r {
            Some(ms) => ms == unix_timestamp * 1000,
            None => unix_timestamp * 1000 > i64::MAX || unix_timestamp * 1000 < i64::MIN,
        },
{
    unix_timestamp.checked_mul(1000)
}

} // verus!
