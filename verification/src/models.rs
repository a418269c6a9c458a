use crate::messaging::{AmqpMessage, AmqpMessageBody, AmqpMessageProperties, AmqpMessagePropertiesView};
use crate::value::{AmqpOrderedMap, AmqpSymbol, AmqpTimestamp, AmqpValue};
use crate::entries::{
    entries_to_map, lemma_entries_to_map_domain, lemma_entries_to_map_value, names_unique,
};
use vstd::prelude::*;

pub mod builders;

verus! {

/// The properties of an Event Hub.
#[derive(Debug)]
pub struct EventHubProperties {
    pub name: String,
    pub created_on: AmqpTimestamp,
    pub partition_ids: Vec<String>,
}

/// The properties of an Event Hub partition.
///
/// - `id`: the partition's identifier.
/// - `eventhub`: the name of the Event Hub that the partition belongs to.
/// - `beginning_sequence_number`: the sequence number of the earliest event that can be received.
/// - `last_enqueued_sequence_number`: the sequence number of the latest enqueued event.
/// - `last_enqueued_offset`: the offset of the latest enqueued event.
/// - `last_enqueued_time_utc`: when the latest event was enqueued.
/// - `is_empty`: whether the partition holds no events.
#[derive(Debug)]
pub struct EventHubPartitionProperties {
    pub id: String,
    pub eventhub: String,
    pub beginning_sequence_number: i64,
    pub last_enqueued_sequence_number: i64,
    pub last_enqueued_offset: String,
    pub last_enqueued_time_utc: AmqpTimestamp,
    pub is_empty: bool,
}

/// An event: a body and the metadata that travels with it.
pub struct EventDataView {
    pub body: Seq<u8>,
    pub content_type: Option<String>,
    pub correlation_id: Option<AmqpValue>,
    pub message_id: Option<String>,
    pub properties: Map<Seq<char>, AmqpValue>,
}

/// An event sent to or received from an Event Hub.
#[derive(Debug)]
pub struct EventData {
    body: Vec<u8>,
    content_type: Option<String>,
    correlation_id: Option<AmqpValue>,
    message_id: Option<String>,
    properties: Vec<(String, AmqpValue)>,
}

impl View for EventData {
    type V = EventDataView;

    closed spec fn view(&self) -> EventDataView {
        EventDataView {
            body: self.body@,
            content_type: self.content_type,
            correlation_id: self.correlation_id,
            message_id: self.message_id,
            properties: entries_to_map(self.properties@),
        }
    }
}

/// The properties section that an event's metadata becomes in a message.
pub open spec fn carries_event_metadata(p: AmqpMessagePropertiesView, e: EventDataView) -> bool {
    &&& p.content_type == (match e.content_type {
        Some(t) => Some(AmqpSymbol(t)),
        None => None,
    })
    &&& p.correlation_id == e.correlation_id
    &&& p.message_id == (match e.message_id {
        Some(id) => Some(AmqpValue::String(id)),
        None => None,
    })
    &&& p.user_id is None
    &&& p.to is None
    &&& p.subject is None
    &&& p.reply_to is None
    &&& p.content_encoding is None
    &&& p.absolute_expiry_time is None
    &&& p.creation_time is None
    &&& p.group_id is None
    &&& p.group_sequence is None
    &&& p.reply_to_group_id is None
}

/// `m` is the message that the event `e` is sent as: its metadata in the
/// properties section, its properties as application properties, each once, and
/// no body.
pub open spec fn message_of_event(e: EventDataView, m: AmqpMessage) -> bool {
    &&& m.body == AmqpMessageBody::Empty
    &&& m.header is None
    &&& m.message_annotations is None
    &&& m.delivery_annotations is None
    &&& m.footer is None
    &&& m.properties matches Some(p) && carries_event_metadata(p@, e)
    &&& match m.application_properties {
        Some(a) => a@.len() > 0 && names_unique(a@) && entries_to_map(a@) == e.properties,
        None => e.properties == Map::<Seq<char>, AmqpValue>::empty(),
    }
}

/// A message can be read as an event when the message id it carries, if any, is text.
pub open spec fn message_id_is_text(m: AmqpMessage) -> bool {
    match m.properties {
        Some(p) => match p@.message_id {
            Some(id) => id is String,
            None => true,
        },
        None => true,
    }
}

/// Whether a message can be read as an event: the message id it carries, if
/// any, is text.
pub fn message_id_readable(message: &AmqpMessage) -> (r: bool)
    ensures
        r == message_id_is_text(*message),
{
    match &message.properties {
        Some(p) => {
            match p.message_id() {
                Some(AmqpValue::String(_)) => true,
                Some(_) => false,
                None => true,
            }
        },
        None => true,
    }
}

/// `e` is the event that the message `m` is read as: its content type, correlation
/// id and message id, its application properties (a later one replacing an earlier
/// one of the same name), and no body.
pub open spec fn event_of_message(m: AmqpMessage, e: EventDataView) -> bool {
    &&& e.body == Seq::<u8>::empty()
    &&& e.content_type == (match m.properties {
        Some(p) => match p@.content_type {
            Some(s) => Some(s.0),
            None => None,
        },
        None => None,
    })
    &&& e.correlation_id == (match m.properties {
        Some(p) => p@.correlation_id,
        None => None,
    })
    &&& e.message_id == (match m.properties {
        Some(p) => match p@.message_id {
            Some(AmqpValue::String(s)) => Some(s),
            _ => None,
        },
        None => None,
    })
    &&& e.properties == (match m.application_properties {
        Some(a) => entries_to_map(a@),
        None => Map::empty(),
    })
}

impl EventData {
    #[verifier::type_invariant]
    closed spec fn wf(self) -> bool {
        names_unique(self.properties@)
    }

    pub fn builder() -> (r: builders::EventDataBuilder)
        ensures
            r.pending()@ == (EventDataView {
                body: Seq::empty(),
                content_type: None,
                correlation_id: None,
                message_id: None,
                properties: Map::empty(),
            }),
    {
        builders::EventDataBuilder::new()
    }

    pub fn new() -> (r: Self)
        ensures
            r@ == (EventDataView {
                body: Seq::empty(),
                content_type: None,
                correlation_id: None,
                message_id: None,
                properties: Map::empty(),
            }),
    {
        EventData {
            body: Vec::new(),
            content_type: None,
            correlation_id: None,
            message_id: None,
            properties: Vec::new(),
        }
    }

    /// An event with `body` and no metadata.
    pub fn from_body(body: Vec<u8>) -> (r: Self)
        ensures
            r@ == (EventDataView {
                body: body@,
                content_type: None,
                correlation_id: None,
                message_id: None,
                properties: Map::empty(),
            }),
    {
        EventData {
            body,
            content_type: None,
            correlation_id: None,
            message_id: None,
            properties: Vec::new(),
        }
    }

    pub fn body(&self) -> (r: &Vec<u8>)
        ensures
            r@ == self@.body,
    {
        &self.body
    }

    pub fn content_type(&self) -> (r: Option<&String>)
        ensures
            r == (match self@.content_type {
                Some(t) => Some(&t),
                None => None,
            }),
    {
        self.content_type.as_ref()
    }

    pub fn correlation_id(&self) -> (r: Option<&AmqpValue>)
        ensures
            r == (match self@.correlation_id {
                Some(c) => Some(&c),
                None => None,
            }),
    {
        self.correlation_id.as_ref()
    }

    pub fn message_id(&self) -> (r: Option<&String>)
        ensures
            r == (match self@.message_id {
                Some(m) => Some(&m),
                None => None,
            }),
    {
        self.message_id.as_ref()
    }

    /// The value stored under the property `name`.
    pub fn property(&self, name: &String) -> (r: Option<&AmqpValue>)
        ensures
            r == (if self@.properties.contains_key(name@) {
                Some(&self@.properties[name@])
            } else {
                None
            }),
    {
        proof {
            use_type_invariant(self);
            lemma_entries_to_map_domain(self.properties@);
        }
        let n = self.properties.len();
        let mut i: usize = 0;
        while i < n
            invariant
                n == self.properties@.len(),
                i <= n,
                names_unique(self.properties@),
                forall|j: int| 0 <= j < i ==> #[trigger] self.properties@[j].0@ != name@,
            decreases n - i,
        {
            if self.properties[i].0 == *name {
                proof {
                    lemma_entries_to_map_value(self.properties@, i as int);
                }
                return Some(&self.properties[i].1);
            }
            i += 1;
        }
        None
    }

    /// The message that this event is sent as.
    pub fn into_message(self) -> (r: AmqpMessage)
        ensures
            message_of_event(self@, r),
    {
        proof {
            use_type_invariant(&self);
        }
        let ghost e = self@;
        let EventData { body: _, content_type, correlation_id, message_id, properties } = self;
        let mut properties_builder = AmqpMessageProperties::builder();
        if let Some(content_type) = content_type {
            properties_builder = properties_builder.with_content_type(AmqpSymbol::from(content_type));
        }
        if let Some(correlation_id) = correlation_id {
            properties_builder = properties_builder.with_correlation_id(correlation_id);
        }
        if let Some(message_id) = message_id {
            properties_builder = properties_builder.with_message_id(AmqpValue::from(message_id));
        }
        let mut message_builder = AmqpMessage::builder();
        message_builder = message_builder.with_properties(properties_builder.build());
        if properties.len() > 0 {
            message_builder = message_builder.with_application_properties(
                AmqpOrderedMap::from_entries(properties),
            );
        } else {
            proof {
                assert(properties@ =~= Seq::<(String, AmqpValue)>::empty());
                assert(entries_to_map(properties@) =~= Map::<Seq<char>, AmqpValue>::empty());
            }
        }
        message_builder.build()
    }

    /// The event that a message is read as.
    pub fn from_message(message: AmqpMessage) -> (r: Self)
        requires
            message_id_is_text(message),
        ensures
            event_of_message(message, r@),
    {
        let ghost m = message;
        let AmqpMessage { body: _, header: _, application_properties, message_annotations: _, delivery_annotations: _, properties, footer: _ } = message;
        let mut builder = EventData::builder();
        if let Some(properties) = properties {
            let (message_id, correlation_id, content_type) = properties.into_ids_and_content_type();
            if let Some(content_type) = content_type {
                builder = builder.with_content_type(String::from(content_type));
            }
            if let Some(correlation_id) = correlation_id {
                builder = builder.with_correlation_id(correlation_id);
            }
            if let Some(message_id) = message_id {
                match message_id {
                    AmqpValue::String(id) => {
                        builder = builder.with_message_id(id);
                    },
                    _ => {},
                }
            }
        }
        if let Some(application_properties) = application_properties {
            let mut entries = application_properties.into_iter();
            let ghost all = entries@;
            let ghost before = builder.pending()@;
            let n = entries.len();
            let mut taken: usize = 0;
            while entries.len() > 0
                invariant
                    n == all.len(),
                    taken <= n,
                    entries@ == all.subrange(taken as int, n as int),
                    builder.pending()@ == (EventDataView {
                        properties: entries_to_map(all.subrange(0, taken as int)),
                        ..before
                    }),
                    before.properties == Map::<Seq<char>, AmqpValue>::empty(),
                decreases entries@.len(),
            {
                let (key, value) = entries.remove(0);
                proof {
                    assert(all.subrange(0, taken + 1).drop_last() =~= all.subrange(0, taken as int));
                    assert(all[taken as int] == (key, value));
                }
                builder = builder.add_property(key, value);
                taken += 1;
                proof {
                    assert(entries@ =~= all.subrange(taken as int, n as int));
                }
            }
            proof {
                assert(all.subrange(0, n as int) =~= all);
            }
        }
        builder.build()
    }
}

impl From<EventData> for AmqpMessage {
    /// The message that the event is sent as.
    fn from(event: EventData) -> (r: AmqpMessage)
        ensures
            message_of_event(event@, r),
    {
        event.into_message()
    }
}

impl vstd::std_specs::convert::FromSpecImpl<EventData> for AmqpMessage {
    /// The message is fixed by the event only up to how its entries are held,
    /// so the conversion is described by `message_of_event` rather than by one
    /// value.
    open spec fn obeys_from_spec() -> bool {
        false
    }

    open spec fn from_spec(v: EventData) -> AmqpMessage {
        choose|m: AmqpMessage| message_of_event(v@, m)
    }
}

impl From<AmqpMessage> for EventData {
    /// The event that a message is read as. A message whose message id is not
    /// text cannot be read as an event; it gives an event with nothing set.
    fn from(message: AmqpMessage) -> (r: EventData)
        ensures
            message_id_is_text(message) ==> event_of_message(message, r@),
            !message_id_is_text(message) ==> r@ == (EventDataView {
                body: Seq::empty(),
                content_type: None,
                correlation_id: None,
                message_id: None,
                properties: Map::empty(),
            }),
    {
        if message_id_readable(&message) {
            EventData::from_message(message)
        } else {
            EventData::new()
        }
    }
}

impl vstd::std_specs::convert::FromSpecImpl<AmqpMessage> for EventData {
    /// The event is fixed by the message only up to how its properties are
    /// held, so the conversion is described by `event_of_message` rather than by
    /// one value.
    open spec fn obeys_from_spec() -> bool {
        false
    }

    open spec fn from_spec(v: AmqpMessage) -> EventData {
        choose|e: EventData| event_of_message(v, e@)
    }
}

/// Roundtrip through `From`: an event converted into a message and back keeps
/// its content type, correlation id, message id and properties.
pub proof fn lemma_event_from_message_from_event(e: EventDataView, m: AmqpMessage, back: EventDataView)
    requires
        message_of_event(e, m),
        message_id_is_text(m) ==> event_of_message(m, back),
    ensures
        back == (EventDataView { body: Seq::empty(), ..e }),
{
    lemma_event_message_roundtrip(e, m, back);
}

/// Roundtrip: an event sent as a message and read back keeps its content type,
/// correlation id, message id and properties; its body does not travel.
pub proof fn lemma_event_message_roundtrip(e: EventDataView, m: AmqpMessage, back: EventDataView)
    requires
        message_of_event(e, m),
        event_of_message(m, back),
    ensures
        message_id_is_text(m),
        back == (EventDataView { body: Seq::empty(), ..e }),
{
}

} // verus!
