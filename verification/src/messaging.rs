use crate::value::{AmqpList, AmqpOrderedMap, AmqpSymbol, AmqpTimestamp, AmqpValue};
use vstd::prelude::*;

pub mod builders;
pub mod keys;

verus! {

#[derive(Debug, Clone, Copy, PartialEq, Eq, Structural)]
pub enum TerminusDurability {
    NotDurable,
    Configuration,
    UnsettledState,
}

#[derive(Debug, Clone, Copy, PartialEq, Eq, Structural)]
pub enum TerminusExpiryPolicy {
    LinkDetach,
    SessionEnd,
    ConnectionClose,
    Never,
}

#[derive(Debug, Clone, Copy, PartialEq, Eq, Structural)]
pub enum DistributionMode {
    Move,
    Copy,
}

#[derive(Debug, Clone, Copy, PartialEq, Eq, Structural)]
pub enum AmqpOutcome {
    Accepted,
    Rejected,
    Released,
    Modified,
}

/// A target node of an AMQP link.
#[derive(Debug, Clone, PartialEq)]
pub struct AmqpTarget {
    pub address: Option<String>,
    pub durable: Option<TerminusDurability>,
    pub expiry_policy: Option<TerminusExpiryPolicy>,
    pub timeout: Option<u32>,
    pub dynamic: Option<bool>,
    pub dynamic_node_properties: Option<AmqpOrderedMap<String, AmqpValue>>,
    pub capabilities: Option<Vec<AmqpValue>>,
}

impl AmqpTarget {
    pub fn builder() -> (r: builders::AmqpTargetBuilder)
        ensures
            r.pending() == (AmqpTarget {
                address: None,
                durable: None,
                expiry_policy: None,
                timeout: None,
                dynamic: None,
                dynamic_node_properties: None,
                capabilities: None,
            }),
    {
        builders::AmqpTargetBuilder::new()
    }

    /// The target's address; a target built without one has none to give.
    pub fn into_address(self) -> (r: String)
        requires
            self.address is Some,
        ensures
            r == self.address->0,
    {
        self.address.unwrap()
    }
}

impl From<String> for AmqpTarget {
    /// The target at `address`, with no other setting.
    fn from(address: String) -> (r: AmqpTarget)
        ensures
            r.address == Some(address),
            r.durable is None,
            r.expiry_policy is None,
            r.timeout is None,
            r.dynamic is None,
            r.dynamic_node_properties is None,
            r.capabilities is None,
    {
        AmqpTarget {
            address: Some(address),
            durable: None,
            expiry_policy: None,
            timeout: None,
            dynamic: None,
            dynamic_node_properties: None,
            capabilities: None,
        }
    }
}

impl vstd::std_specs::convert::FromSpecImpl<String> for AmqpTarget {
    open spec fn obeys_from_spec() -> bool {
        true
    }

    open spec fn from_spec(address: String) -> AmqpTarget {
        AmqpTarget {
            address: Some(address),
            durable: None,
            expiry_policy: None,
            timeout: None,
            dynamic: None,
            dynamic_node_properties: None,
            capabilities: None,
        }
    }
}

/// A source node of an AMQP link.
#[derive(Debug, Clone, PartialEq)]
pub struct AmqpSource {
    pub address: Option<String>,
    pub durable: Option<TerminusDurability>,
    pub expiry_policy: Option<TerminusExpiryPolicy>,
    pub timeout: Option<u32>,
    pub dynamic: Option<bool>,
    pub dynamic_node_properties: Option<AmqpOrderedMap<String, AmqpValue>>,
    pub distribution_mode: Option<DistributionMode>,
    pub filter: Option<AmqpOrderedMap<String, AmqpValue>>,
    pub default_outcome: Option<AmqpOutcome>,
    pub outcomes: Option<Vec<AmqpSymbol>>,
    pub capabilities: Option<Vec<AmqpValue>>,
}

impl AmqpSource {
    pub fn builder() -> (r: builders::AmqpSourceBuilder)
        ensures
            r.pending() == (AmqpSource {
                address: None,
                durable: None,
                expiry_policy: None,
                timeout: None,
                dynamic: None,
                dynamic_node_properties: None,
                distribution_mode: None,
                filter: None,
                default_outcome: None,
                outcomes: None,
                capabilities: None,
            }),
    {
        builders::AmqpSourceBuilder::new()
    }
}

#[derive(Debug, Clone, Copy, PartialEq, Eq, Structural)]
pub struct AmqpMessageHeader {
    pub durable: Option<bool>,
    pub priority: Option<u8>,
    pub time_to_live: Option<u64>,
    pub first_acquirer: Option<bool>,
    pub delivery_count: Option<u32>,
}

/// The properties section of an AMQP message, as its fields hold them.
pub struct AmqpMessagePropertiesView {
    pub message_id: Option<AmqpValue>,
    pub user_id: Option<Vec<u8>>,
    pub to: Option<AmqpValue>,
    pub subject: Option<String>,
    pub reply_to: Option<AmqpValue>,
    pub correlation_id: Option<AmqpValue>,
    pub content_type: Option<AmqpSymbol>,
    pub content_encoding: Option<AmqpSymbol>,
    pub absolute_expiry_time: Option<AmqpTimestamp>,
    pub creation_time: Option<AmqpTimestamp>,
    pub group_id: Option<String>,
    pub group_sequence: Option<u32>,
    pub reply_to_group_id: Option<String>,
}

/// The properties section of an AMQP message.
#[derive(Debug, Clone, PartialEq)]
pub struct AmqpMessageProperties {
    message_id: Option<AmqpValue>,
    user_id: Option<Vec<u8>>,
    to: Option<AmqpValue>,
    subject: Option<String>,
    reply_to: Option<AmqpValue>,
    correlation_id: Option<AmqpValue>,
    content_type: Option<AmqpSymbol>,
    content_encoding: Option<AmqpSymbol>,
    absolute_expiry_time: Option<AmqpTimestamp>,
    creation_time: Option<AmqpTimestamp>,
    group_id: Option<String>,
    group_sequence: Option<u32>,
    reply_to_group_id: Option<String>,
}

impl View for AmqpMessageProperties {
    type V = AmqpMessagePropertiesView;

    closed spec fn view(&self) -> AmqpMessagePropertiesView {
        AmqpMessagePropertiesView {
            message_id: self.message_id,
            user_id: self.user_id,
            to: self.to,
            subject: self.subject,
            reply_to: self.reply_to,
            correlation_id: self.correlation_id,
            content_type: self.content_type,
            content_encoding: self.content_encoding,
            absolute_expiry_time: self.absolute_expiry_time,
            creation_time: self.creation_time,
            group_id: self.group_id,
            group_sequence: self.group_sequence,
            reply_to_group_id: self.reply_to_group_id,
        }
    }
}

impl AmqpMessageProperties {
    pub fn builder() -> (r: builders::AmqpMessagePropertiesBuilder)
        ensures
            r.pending()@ == (AmqpMessagePropertiesView {
                message_id: None,
                user_id: None,
                to: None,
                subject: None,
                reply_to: None,
                correlation_id: None,
                content_type: None,
                content_encoding: None,
                absolute_expiry_time: None,
                creation_time: None,
                group_id: None,
                group_sequence: None,
                reply_to_group_id: None,
            }),
    {
        builders::AmqpMessagePropertiesBuilder::new()
    }

    /// The message id, the correlation id and the content type, taken out of the section.
    pub(crate) fn into_ids_and_content_type(self) -> (r: (
        Option<AmqpValue>,
        Option<AmqpValue>,
        Option<AmqpSymbol>,
    ))
        ensures
            r == (self@.message_id, self@.correlation_id, self@.content_type),
    {
        (self.message_id, self.correlation_id, self.content_type)
    }

    pub fn message_id(&self) -> (r: Option<&AmqpValue>)
        ensures
            r == (match self@.message_id {
                Some(v) => Some(&v),
                None => None,
            }),
    {
        self.message_id.as_ref()
    }

    pub fn user_id(&self) -> (r: Option<&Vec<u8>>)
        ensures
            r == (match self@.user_id {
                Some(v) => Some(&v),
                None => None,
            }),
    {
        self.user_id.as_ref()
    }

    pub fn to(&self) -> (r: Option<&AmqpValue>)
        ensures
            r == (match self@.to {
                Some(v) => Some(&v),
                None => None,
            }),
    {
        self.to.as_ref()
    }

    pub fn subject(&self) -> (r: Option<&String>)
        ensures
            r == (match self@.subject {
                Some(v) => Some(&v),
                None => None,
            }),
    {
        self.subject.as_ref()
    }

    pub fn reply_to(&self) -> (r: Option<&AmqpValue>)
        ensures
            r == (match self@.reply_to {
                Some(v) => Some(&v),
                None => None,
            }),
    {
        self.reply_to.as_ref()
    }

    pub fn correlation_id(&self) -> (r: Option<&AmqpValue>)
        ensures
            r == (match self@.correlation_id {
                Some(v) => Some(&v),
                None => None,
            }),
    {
        self.correlation_id.as_ref()
    }

    pub fn content_type(&self) -> (r: Option<&AmqpSymbol>)
        ensures
            r == (match self@.content_type {
                Some(v) => Some(&v),
                None => None,
            }),
    {
        self.content_type.as_ref()
    }

    pub fn content_encoding(&self) -> (r: Option<&AmqpSymbol>)
        ensures
            r == (match self@.content_encoding {
                Some(v) => Some(&v),
                None => None,
            }),
    {
        self.content_encoding.as_ref()
    }

    pub fn absolute_expiry_time(&self) -> (r: Option<&AmqpTimestamp>)
        ensures
            r == (match self@.absolute_expiry_time {
                Some(v) => Some(&v),
                None => None,
            }),
    {
        self.absolute_expiry_time.as_ref()
    }

    pub fn creation_time(&self) -> (r: Option<&AmqpTimestamp>)
        ensures
            r == (match self@.creation_time {
                Some(v) => Some(&v),
                None => None,
            }),
    {
        self.creation_time.as_ref()
    }

    pub fn group_id(&self) -> (r: Option<&String>)
        ensures
            r == (match self@.group_id {
                Some(v) => Some(&v),
                None => None,
            }),
    {
        self.group_id.as_ref()
    }

    pub fn group_sequence(&self) -> (r: Option<&u32>)
        ensures
            r == (match self@.group_sequence {
                Some(v) => Some(&v),
                None => None,
            }),
    {
        self.group_sequence.as_ref()
    }

    pub fn reply_to_group_id(&self) -> (r: Option<&String>)
        ensures
            r == (match self@.reply_to_group_id {
                Some(v) => Some(&v),
                None => None,
            }),
    {
        self.reply_to_group_id.as_ref()
    }
}

/// The body of an AMQP message.
#[derive(Debug, Clone, PartialEq)]
pub enum AmqpMessageBody {
    Binary(Vec<Vec<u8>>),
    Sequence(Vec<AmqpList>),
    Value(AmqpValue),
    Empty,
}

impl AmqpMessageBody {
    /// A body of one data section holding `body`.
    pub fn from_binary(body: Vec<u8>) -> (r: AmqpMessageBody)
        ensures
            r matches AmqpMessageBody::Binary(sections) && sections@ == seq![body],
    {
        let sections = vec![body];
        proof {
            assert(sections@ =~= seq![body]);
        }
        AmqpMessageBody::Binary(sections)
    }

    /// A body of one sequence section holding `list`.
    pub fn from_list(list: AmqpList) -> (r: AmqpMessageBody)
        ensures
            r matches AmqpMessageBody::Sequence(sections) && sections@ == seq![list],
    {
        let sections = vec![list];
        proof {
            assert(sections@ =~= seq![list]);
        }
        AmqpMessageBody::Sequence(sections)
    }
}

impl From<AmqpValue> for AmqpMessageBody {
    fn from(value: AmqpValue) -> (r: AmqpMessageBody)
        ensures
            r == AmqpMessageBody::Value(value),
    {
        AmqpMessageBody::Value(value)
    }
}

impl vstd::std_specs::convert::FromSpecImpl<AmqpValue> for AmqpMessageBody {
    open spec fn obeys_from_spec() -> bool {
        true
    }

    open spec fn from_spec(value: AmqpValue) -> AmqpMessageBody {
        AmqpMessageBody::Value(value)
    }
}

impl From<Vec<AmqpList>> for AmqpMessageBody {
    fn from(lists: Vec<AmqpList>) -> (r: AmqpMessageBody)
        ensures
            r == AmqpMessageBody::Sequence(lists),
    {
        AmqpMessageBody::Sequence(lists)
    }
}

impl vstd::std_specs::convert::FromSpecImpl<Vec<AmqpList>> for AmqpMessageBody {
    open spec fn obeys_from_spec() -> bool {
        true
    }

    open spec fn from_spec(lists: Vec<AmqpList>) -> AmqpMessageBody {
        AmqpMessageBody::Sequence(lists)
    }
}

/// A body made from a value is an AMQP-value body that carries that value; a
/// body made from lists is a sequence body of those lists. Neither is empty.
pub proof fn lemma_body_from_carries_its_contents(value: AmqpValue, lists: Vec<AmqpList>)
    ensures
        <AmqpMessageBody as vstd::std_specs::convert::FromSpec<AmqpValue>>::from_spec(value) matches AmqpMessageBody::Value(w)
            && w == value,
        <AmqpMessageBody as vstd::std_specs::convert::FromSpec<Vec<AmqpList>>>::from_spec(lists) matches AmqpMessageBody::Sequence(l)
            && l == lists,
        !(<AmqpMessageBody as vstd::std_specs::convert::FromSpec<AmqpValue>>::from_spec(value) is Empty),
{
}

/// An AMQP message: the subset of the AMQP 1.0 message format that Event Hubs uses.
#[derive(Debug, Clone, PartialEq)]
pub struct AmqpMessage {
    pub body: AmqpMessageBody,
    pub header: Option<AmqpMessageHeader>,
    pub application_properties: Option<AmqpOrderedMap<String, AmqpValue>>,
    pub message_annotations: Option<AmqpOrderedMap<AmqpValue, AmqpValue>>,
    pub delivery_annotations: Option<AmqpOrderedMap<AmqpValue, AmqpValue>>,
    pub properties: Option<AmqpMessageProperties>,
    pub footer: Option<AmqpOrderedMap<AmqpValue, AmqpValue>>,
}

impl AmqpMessage {
    pub fn builder() -> (r: builders::AmqpMessageBuilder)
        ensures
            r.pending() == (AmqpMessage {
                body: AmqpMessageBody::Empty,
                header: None,
                application_properties: None,
                message_annotations: None,
                delivery_annotations: None,
                properties: None,
                footer: None,
            }),
    {
        builders::AmqpMessageBuilder::new()
    }
}

} // verus!
