use super::{EventData, EventDataView};
use crate::entries::store_entry;
use crate::value::AmqpValue;
use vstd::prelude::*;

verus! {

pub struct EventDataBuilder {
    event_data: EventData,
}

impl EventDataBuilder {
    /// What `build` will hand back.
    pub closed spec fn pending(&self) -> EventData {
        self.event_data
    }

    pub fn new() -> (r: Self)
        ensures
            r.pending()@ == (EventDataView {
                body: Seq::empty(),
                content_type: None,
                correlation_id: None,
                message_id: None,
                properties: Map::empty(),
            }),
    {
        EventDataBuilder { event_data: EventData::new() }
    }

    pub fn with_body(self, body: Vec<u8>) -> (r: Self)
        ensures
            r.pending()@ == (EventDataView { body: body@, ..self.pending()@ }),
    {
        let mut b = self;
        proof {
            use_type_invariant(&b.event_data);
        }
        b.event_data.body = body;
        b
    }

    pub fn with_content_type(self, content_type: String) -> (r: Self)
        ensures
            r.pending()@ == (EventDataView { content_type: Some(content_type), ..self.pending()@ }),
    {
        let mut b = self;
        proof {
            use_type_invariant(&b.event_data);
        }
        b.event_data.content_type = Some(content_type);
        b
    }

    pub fn with_correlation_id(self, correlation_id: AmqpValue) -> (r: Self)
        ensures
            r.pending()@ == (EventDataView { correlation_id: Some(correlation_id), ..self.pending()@ }),
    {
        let mut b = self;
        proof {
            use_type_invariant(&b.event_data);
        }
        b.event_data.correlation_id = Some(correlation_id);
        b
    }

    pub fn with_message_id(self, message_id: String) -> (r: Self)
        ensures
            r.pending()@ == (EventDataView { message_id: Some(message_id), ..self.pending()@ }),
    {
        let mut b = self;
        proof {
            use_type_invariant(&b.event_data);
        }
        b.event_data.message_id = Some(message_id);
        b
    }

    /// Stores `value` under `key`, replacing what was stored under that key.
    pub fn add_property(self, key: String, value: AmqpValue) -> (r: Self)
        ensures
            r.pending()@ == (EventDataView {
                properties: self.pending()@.properties.insert(key@, value),
                ..self.pending()@
            }),
    {
        let mut b = self;
        proof {
            use_type_invariant(&b.event_data);
        }
        let mut properties: Vec<(String, AmqpValue)> = Vec::new();
        std::mem::swap(&mut properties, &mut b.event_data.properties);
        store_entry(&mut properties, key, value);
        b.event_data.properties = properties;
        b
    }

    pub fn build(self) -> (r: EventData)
        ensures
            r == self.pending(),
    {
        self.event_data
    }
}

} // verus!
