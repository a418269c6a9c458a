//! The requests that the management client sends: a read of an entity by name,
//! or a read of one partition of an Event Hub.
use crate::value::{lemma_lookup_by_text, text_lookup, AmqpOrderedMap, AmqpValue};
use vstd::prelude::*;

verus! {

/// A request for the properties of one partition of an Event Hub.
#[derive(Debug)]
pub struct GetPartitionRequest {
    eventhub: String,
    partition_id: String,
}

impl GetPartitionRequest {
    /// The Event Hub the request is about.
    pub closed spec fn eventhub_of(&self) -> String {
        self.eventhub
    }

    /// The partition the request is about.
    pub closed spec fn partition_id_of(&self) -> String {
        self.partition_id
    }

    /// A request for the partition `partition_id` of the Event Hub `eventhub`.
    pub fn new(eventhub: String, partition_id: String) -> (r: Self)
        ensures
            r.eventhub_of() == eventhub,
            r.partition_id_of() == partition_id,
    {
        GetPartitionRequest { eventhub, partition_id }
    }

    /// The operation the request performs.
    pub fn operation(&self) -> (r: &'static str)
        ensures
            r@ == "READ"@,
    {
        "READ"
    }

    /// The type of entity the request is about.
    pub fn manageable_entity_type(&self) -> (r: Option<String>)
        ensures
            r matches Some(t) && t@ == "com.microsoft:partition"@,
    {
        Some("com.microsoft:partition".to_string())
    }

    /// The locales of the request: none.
    pub fn locales(&self) -> (r: Option<String>)
        ensures
            r is None,
    {
        None
    }

    /// The application properties of the request: the Event Hub's name, then the
    /// partition.
    pub fn encode_application_properties(&self) -> (r: AmqpOrderedMap<String, AmqpValue>)
        ensures
            r@.len() == 2,
            r@[0].0@ == "name"@ && r@[0].1 == AmqpValue::String(self.eventhub_of()),
            r@[1].0@ == "partition"@ && r@[1].1 == AmqpValue::String(self.partition_id_of()),
    {
        let mut properties: AmqpOrderedMap<String, AmqpValue> = AmqpOrderedMap::new();
        properties.insert("name".to_string(), AmqpValue::String(self.eventhub.clone()));
        properties.insert("partition".to_string(), AmqpValue::String(self.partition_id.clone()));
        properties
    }
}

/// The request that a management call sends.
#[derive(Debug)]
pub enum ManagementRequest {
    /// A read of the entity `name` of type `entity_type`, with no locales.
    ReadByName { name: String, entity_type: String },
    /// A read of one partition.
    Partition(GetPartitionRequest),
}

/// A management call can be made: where application properties are given, they
/// name the partition as a string.
pub open spec fn management_call_valid(
    application_properties: Option<AmqpOrderedMap<String, AmqpValue>>,
) -> bool {
    application_properties matches Some(p) ==> text_lookup(p@, "partition_id"@) matches Some(
        AmqpValue::String(_),
    )
}

/// The request that a management call of `operation_type` on `entity` sends:
/// without application properties, a read of the entity by name; with them, a
/// read of the partition they name.
pub fn management_request(
    operation_type: String,
    entity: String,
    application_properties: Option<AmqpOrderedMap<String, AmqpValue>>,
) -> (r: ManagementRequest)
    requires
        management_call_valid(application_properties),
    ensures
        match application_properties {
            None => r == ManagementRequest::ReadByName { name: entity, entity_type: operation_type },
            Some(p) => r matches ManagementRequest::Partition(q) && q.eventhub_of() == entity
                && text_lookup(p@, "partition_id"@) == Some(AmqpValue::String(q.partition_id_of())),
        },
{
    match application_properties {
        None => ManagementRequest::ReadByName { name: entity, entity_type: operation_type },
        Some(properties) => {
            let key = "partition_id".to_string();
            proof {
                lemma_lookup_by_text(properties@, key);
            }
            let partition_id = match properties.get(key) {
                Some(AmqpValue::String(id)) => id.clone(),
                _ => {
                    proof {
                        assert(false);
                    }
                    String::new()
                },
            };
            ManagementRequest::Partition(GetPartitionRequest::new(entity, partition_id))
        },
    }
}

/// The application properties that name a partition first (as a producer
/// client's partition call does) make a valid management call, and the request
/// it sends reads that partition.
pub proof fn lemma_partition_call_names_partition(
    properties: AmqpOrderedMap<String, AmqpValue>,
    partition_id: String,
)
    requires
        properties@.len() >= 1,
        properties@[0].0@ == "partition_id"@,
        properties@[0].1 == AmqpValue::String(partition_id),
    ensures
        management_call_valid(Some(properties)),
        text_lookup(properties@, "partition_id"@) == Some(AmqpValue::String(partition_id)),
{
    let entries = properties@;
    assert(crate::value::is_first_text_position(entries, "partition_id"@, 0));
    let q = choose|i: int| crate::value::is_first_text_position(entries, "partition_id"@, i);
    if q > 0 {
        assert(entries[0].0@ != "partition_id"@);
    }
}

} // verus!
