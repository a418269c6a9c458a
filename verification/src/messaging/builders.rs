use super::{AmqpMessage, AmqpMessageBody, AmqpMessageHeader, AmqpMessageProperties, AmqpMessagePropertiesView, AmqpOutcome, AmqpSource, AmqpTarget, DistributionMode, TerminusDurability, TerminusExpiryPolicy};
use crate::value::{AmqpOrderedMap, AmqpSymbol, AmqpTimestamp, AmqpValue};
use vstd::prelude::*;

verus! {

pub struct AmqpSourceBuilder {
    source: AmqpSource,
}

impl AmqpSourceBuilder {
    pub(super) fn new() -> (r: AmqpSourceBuilder)
        ensures
            r.pending() == (AmqpSource {
                address: None,
                durable: None,
                expiry_policy: None,
                timeout: None,
                dynamic: None,
                dynamic_node_properties: None,
                distribution_mode: None,
                filter: None,
                default_outcome: None,
                outcomes: None,
                capabilities: None,
            }),
    {
        AmqpSourceBuilder {
            source: AmqpSource {
                address: None,
                durable: None,
                expiry_policy: None,
                timeout: None,
                dynamic: None,
                dynamic_node_properties: None,
                distribution_mode: None,
                filter: None,
                default_outcome: None,
                outcomes: None,
                capabilities: None,
            },
        }
    }

    /// What `build` will hand back.
    pub closed spec fn pending(&self) -> AmqpSource {
        self.source
    }

    pub fn build(self) -> (r: AmqpSource)
        ensures
            r == self.pending(),
    {
        self.source
    }

    pub fn with_address(self, address: String) -> (r: Self)
        ensures
            r.pending() == (AmqpSource { address: Some(address), ..self.pending() }),
    {
        let mut b = self;
        b.source.address = Some(address);
        b
    }

    pub fn with_durable(self, durable: TerminusDurability) -> (r: Self)
        ensures
            r.pending() == (AmqpSource { durable: Some(durable), ..self.pending() }),
    {
        let mut b = self;
        b.source.durable = Some(durable);
        b
    }

    pub fn with_expiry_policy(self, expiry_policy: TerminusExpiryPolicy) -> (r: Self)
        ensures
            r.pending() == (AmqpSource { expiry_policy: Some(expiry_policy), ..self.pending() }),
    {
        let mut b = self;
        b.source.expiry_policy = Some(expiry_policy);
        b
    }

    pub fn with_timeout(self, timeout: u32) -> (r: Self)
        ensures
            r.pending() == (AmqpSource { timeout: Some(timeout), ..self.pending() }),
    {
        let mut b = self;
        b.source.timeout = Some(timeout);
        b
    }

    pub fn with_dynamic(self, dynamic: bool) -> (r: Self)
        ensures
            r.pending() == (AmqpSource { dynamic: Some(dynamic), ..self.pending() }),
    {
        let mut b = self;
        b.source.dynamic = Some(dynamic);
        b
    }

    pub fn with_dynamic_node_properties(self, dynamic_node_properties: AmqpOrderedMap<String, AmqpValue>) -> (r: Self)
        ensures
            r.pending() == (AmqpSource { dynamic_node_properties: Some(dynamic_node_properties), ..self.pending() }),
    {
        let mut b = self;
        b.source.dynamic_node_properties = Some(dynamic_node_properties);
        b
    }

    pub fn with_distribution_mode(self, distribution_mode: DistributionMode) -> (r: Self)
        ensures
            r.pending() == (AmqpSource { distribution_mode: Some(distribution_mode), ..self.pending() }),
    {
        let mut b = self;
        b.source.distribution_mode = Some(distribution_mode);
        b
    }

    pub fn with_filter(self, filter: AmqpOrderedMap<String, AmqpValue>) -> (r: Self)
        ensures
            r.pending() == (AmqpSource { filter: Some(filter), ..self.pending() }),
    {
        let mut b = self;
        b.source.filter = Some(filter);
        b
    }

    pub fn with_default_outcome(self, default_outcome: AmqpOutcome) -> (r: Self)
        ensures
            r.pending() == (AmqpSource { default_outcome: Some(default_outcome), ..self.pending() }),
    {
        let mut b = self;
        b.source.default_outcome = Some(default_outcome);
        b
    }

    pub fn with_outcomes(self, outcomes: Vec<AmqpSymbol>) -> (r: Self)
        ensures
            r.pending() == (AmqpSource { outcomes: Some(outcomes), ..self.pending() }),
    {
        let mut b = self;
        b.source.outcomes = Some(outcomes);
        b
    }
}

pub struct AmqpTargetBuilder {
    target: AmqpTarget,
}

impl AmqpTargetBuilder {
    pub(super) fn new() -> (r: AmqpTargetBuilder)
        ensures
            r.pending() == (AmqpTarget {
                address: None,
                durable: None,
                expiry_policy: None,
                timeout: None,
                dynamic: None,
                dynamic_node_properties: None,
                capabilities: None,
            }),
    {
        AmqpTargetBuilder {
            target: AmqpTarget {
                address: None,
                durable: None,
                expiry_policy: None,
                timeout: None,
                dynamic: None,
                dynamic_node_properties: None,
                capabilities: None,
            },
        }
    }

    /// What `build` will hand back.
    pub closed spec fn pending(&self) -> AmqpTarget {
        self.target
    }

    pub fn build(self) -> (r: AmqpTarget)
        ensures
            r == self.pending(),
    {
        self.target
    }

    pub fn with_address(self, address: String) -> (r: Self)
        ensures
            r.pending() == (AmqpTarget { address: Some(address), ..self.pending() }),
    {
        let mut b = self;
        b.target.address = Some(address);
        b
    }

    pub fn with_durable(self, durable: TerminusDurability) -> (r: Self)
        ensures
            r.pending() == (AmqpTarget { durable: Some(durable), ..self.pending() }),
    {
        let mut b = self;
        b.target.durable = Some(durable);
        b
    }

    pub fn with_expiry_policy(self, expiry_policy: TerminusExpiryPolicy) -> (r: Self)
        ensures
            r.pending() == (AmqpTarget { expiry_policy: Some(expiry_policy), ..self.pending() }),
    {
        let mut b = self;
        b.target.expiry_policy = Some(expiry_policy);
        b
    }

    pub fn with_timeout(self, timeout: u32) -> (r: Self)
        ensures
            r.pending() == (AmqpTarget { timeout: Some(timeout), ..self.pending() }),
    {
        let mut b = self;
        b.target.timeout = Some(timeout);
        b
    }

    pub fn with_dynamic(self, dynamic: bool) -> (r: Self)
        ensures
            r.pending() == (AmqpTarget { dynamic: Some(dynamic), ..self.pending() }),
    {
        let mut b = self;
        b.target.dynamic = Some(dynamic);
        b
    }

    pub fn with_dynamic_node_properties(self, dynamic_node_properties: AmqpOrderedMap<String, AmqpValue>) -> (r: Self)
        ensures
            r.pending() == (AmqpTarget { dynamic_node_properties: Some(dynamic_node_properties), ..self.pending() }),
    {
        let mut b = self;
        b.target.dynamic_node_properties = Some(dynamic_node_properties);
        b
    }

    pub fn with_capabilities(self, capabilities: Vec<AmqpValue>) -> (r: Self)
        ensures
            r.pending() == (AmqpTarget { capabilities: Some(capabilities), ..self.pending() }),
    {
        let mut b = self;
        b.target.capabilities = Some(capabilities);
        b
    }
}

pub struct AmqpMessagePropertiesBuilder {
    properties: AmqpMessageProperties,
}

impl AmqpMessagePropertiesBuilder {
    pub(super) fn new() -> (r: AmqpMessagePropertiesBuilder)
        ensures
            r.pending()@ == (AmqpMessagePropertiesView {
                message_id: None,
                user_id: None,
                to: None,
                subject: None,
                reply_to: None,
                correlation_id: None,
                content_type: None,
                content_encoding: None,
                absolute_expiry_time: None,
                creation_time: None,
                group_id: None,
                group_sequence: None,
                reply_to_group_id: None,
            }),
    {
        AmqpMessagePropertiesBuilder {
            properties: AmqpMessageProperties {
                message_id: None,
                user_id: None,
                to: None,
                subject: None,
                reply_to: None,
                correlation_id: None,
                content_type: None,
                content_encoding: None,
                absolute_expiry_time: None,
                creation_time: None,
                group_id: None,
                group_sequence: None,
                reply_to_group_id: None,
            },
        }
    }

    /// What `build` will hand back.
    pub closed spec fn pending(&self) -> AmqpMessageProperties {
        self.properties
    }

    pub fn build(self) -> (r: AmqpMessageProperties)
        ensures
            r == self.pending(),
    {
        self.properties
    }

    pub fn with_message_id(self, message_id: AmqpValue) -> (r: Self)
        ensures
            r.pending()@ == (AmqpMessagePropertiesView { message_id: Some(message_id), ..self.pending()@ }),
    {
        let mut b = self;
        b.properties.message_id = Some(message_id);
        b
    }

    pub fn with_user_id(self, user_id: Vec<u8>) -> (r: Self)
        ensures
            r.pending()@ == (AmqpMessagePropertiesView { user_id: Some(user_id), ..self.pending()@ }),
    {
        let mut b = self;
        b.properties.user_id = Some(user_id);
        b
    }

    pub fn with_to(self, to: AmqpValue) -> (r: Self)
        ensures
            r.pending()@ == (AmqpMessagePropertiesView { to: Some(to), ..self.pending()@ }),
    {
        let mut b = self;
        b.properties.to = Some(to);
        b
    }

    pub fn with_subject(self, subject: String) -> (r: Self)
        ensures
            r.pending()@ == (AmqpMessagePropertiesView { subject: Some(subject), ..self.pending()@ }),
    {
        let mut b = self;
        b.properties.subject = Some(subject);
        b
    }

    pub fn with_reply_to(self, reply_to: AmqpValue) -> (r: Self)
        ensures
            r.pending()@ == (AmqpMessagePropertiesView { reply_to: Some(reply_to), ..self.pending()@ }),
    {
        let mut b = self;
        b.properties.reply_to = Some(reply_to);
        b
    }

    pub fn with_correlation_id(self, correlation_id: AmqpValue) -> (r: Self)
        ensures
            r.pending()@ == (AmqpMessagePropertiesView { correlation_id: Some(correlation_id), ..self.pending()@ }),
    {
        let mut b = self;
        b.properties.correlation_id = Some(correlation_id);
        b
    }

    pub fn with_content_type(self, content_type: AmqpSymbol) -> (r: Self)
        ensures
            r.pending()@ == (AmqpMessagePropertiesView { content_type: Some(content_type), ..self.pending()@ }),
    {
        let mut b = self;
        b.properties.content_type = Some(content_type);
        b
    }

    pub fn with_content_encoding(self, content_encoding: AmqpSymbol) -> (r: Self)
        ensures
            r.pending()@ == (AmqpMessagePropertiesView { content_encoding: Some(content_encoding), ..self.pending()@ }),
    {
        let mut b = self;
        b.properties.content_encoding = Some(content_encoding);
        b
    }

    pub fn with_absolute_expiry_time(self, absolute_expiry_time: AmqpTimestamp) -> (r: Self)
        ensures
            r.pending()@ == (AmqpMessagePropertiesView { absolute_expiry_time: Some(absolute_expiry_time), ..self.pending()@ }),
    {
        let mut b = self;
        b.properties.absolute_expiry_time = Some(absolute_expiry_time);
        b
    }

    pub fn with_creation_time(self, creation_time: AmqpTimestamp) -> (r: Self)
        ensures
            r.pending()@ == (AmqpMessagePropertiesView { creation_time: Some(creation_time), ..self.pending()@ }),
    {
        let mut b = self;
        b.properties.creation_time = Some(creation_time);
        b
    }

    pub fn with_group_id(self, group_id: String) -> (r: Self)
        ensures
            r.pending()@ == (AmqpMessagePropertiesView { group_id: Some(group_id), ..self.pending()@ }),
    {
        let mut b = self;
        b.properties.group_id = Some(group_id);
        b
    }

    pub fn with_group_sequence(self, group_sequence: u32) -> (r: Self)
        ensures
            r.pending()@ == (AmqpMessagePropertiesView { group_sequence: Some(group_sequence), ..self.pending()@ }),
    {
        let mut b = self;
        b.properties.group_sequence = Some(group_sequence);
        b
    }

    pub fn with_reply_to_group_id(self, reply_to_group_id: String) -> (r: Self)
        ensures
            r.pending()@ == (AmqpMessagePropertiesView { reply_to_group_id: Some(reply_to_group_id), ..self.pending()@ }),
    {
        let mut b = self;
        b.properties.reply_to_group_id = Some(reply_to_group_id);
        b
    }
}

pub struct AmqpMessageBuilder {
    message: AmqpMessage,
}

impl AmqpMessageBuilder {
    pub(crate) fn new() -> (r: AmqpMessageBuilder)
        ensures
            r.pending() == (AmqpMessage {
                body: AmqpMessageBody::Empty,
                header: None,
                application_properties: None,
                message_annotations: None,
                delivery_annotations: None,
                properties: None,
                footer: None,
            }),
    {
        AmqpMessageBuilder {
            message: AmqpMessage {
                body: AmqpMessageBody::Empty,
                header: None,
                application_properties: None,
                message_annotations: None,
                delivery_annotations: None,
                properties: None,
                footer: None,
            },
        }
    }

    /// Appends one application property, starting the section when there is none yet.
    pub fn add_application_property(self, key: String, value: AmqpValue) -> (r: Self)
        ensures
            r.pending().application_properties matches Some(m) && m@ == (match self.pending().application_properties {
                Some(old) => old@,
                None => Seq::empty(),
            }).push((key, value)),
            r.pending() == (AmqpMessage {
                application_properties: r.pending().application_properties,
                ..self.pending()
            }),
    {
        let mut b = self;
        match b.message.application_properties.take() {
            Some(mut application_properties) => {
                application_properties.insert(key, value);
                b.message.application_properties = Some(application_properties);
            },
            None => {
                let mut application_properties = AmqpOrderedMap::new();
                application_properties.insert(key, value);
                b.message.application_properties = Some(application_properties);
            },
        }
        b
    }

    /// What `build` will hand back.
    pub closed spec fn pending(&self) -> AmqpMessage {
        self.message
    }

    pub fn build(self) -> (r: AmqpMessage)
        ensures
            r == self.pending(),
    {
        self.message
    }

    pub fn with_body(self, body: AmqpMessageBody) -> (r: Self)
        ensures
            r.pending() == (AmqpMessage { body: body, ..self.pending() }),
    {
        let mut b = self;
        b.message.body = body;
        b
    }

    pub fn with_header(self, header: AmqpMessageHeader) -> (r: Self)
        ensures
            r.pending() == (AmqpMessage { header: Some(header), ..self.pending() }),
    {
        let mut b = self;
        b.message.header = Some(header);
        b
    }

    pub fn with_application_properties(self, application_properties: AmqpOrderedMap<String, AmqpValue>) -> (r: Self)
        ensures
            r.pending() == (AmqpMessage { application_properties: Some(application_properties), ..self.pending() }),
    {
        let mut b = self;
        b.message.application_properties = Some(application_properties);
        b
    }

    pub fn with_message_annotations(self, message_annotations: AmqpOrderedMap<AmqpValue, AmqpValue>) -> (r: Self)
        ensures
            r.pending() == (AmqpMessage { message_annotations: Some(message_annotations), ..self.pending() }),
    {
        let mut b = self;
        b.message.message_annotations = Some(message_annotations);
        b
    }

    pub fn with_delivery_annotations(self, delivery_annotations: AmqpOrderedMap<AmqpValue, AmqpValue>) -> (r: Self)
        ensures
            r.pending() == (AmqpMessage { delivery_annotations: Some(delivery_annotations), ..self.pending() }),
    {
        let mut b = self;
        b.message.delivery_annotations = Some(delivery_annotations);
        b
    }

    pub fn with_properties(self, properties: AmqpMessageProperties) -> (r: Self)
        ensures
            r.pending() == (AmqpMessage { properties: Some(properties), ..self.pending() }),
    {
        let mut b = self;
        b.message.properties = Some(properties);
        b
    }

    pub fn with_footer(self, footer: AmqpOrderedMap<AmqpValue, AmqpValue>) -> (r: Self)
        ensures
            r.pending() == (AmqpMessage { footer: Some(footer), ..self.pending() }),
    {
        let mut b = self;
        b.message.footer = Some(footer);
        b
    }
}

} // verus!
