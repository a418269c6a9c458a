//! Options of an AMQP sender.
use super::{properties_from, properties_from_pairs, ReceiverSettleMode, SenderSettleMode};
use crate::messaging::AmqpSource;
use crate::value::{AmqpOrderedMap, AmqpSymbol, AmqpValue};
use vstd::prelude::*;

verus! {
/// The options of an AMQP sender link.
#[derive(Debug)]
pub struct AmqpSenderOptions {
    /// The name of the link.
    pub name: Option<String>,
    /// How the sender settles.
    pub sender_settle_mode: Option<SenderSettleMode>,
    /// How the receiver settles.
    pub receiver_settle_mode: Option<ReceiverSettleMode>,
    /// The source of the link.
    pub source: Option<AmqpSource>,
    /// The capabilities offered.
    pub offered_capabilities: Option<Vec<AmqpSymbol>>,
    /// The capabilities desired.
    pub desired_capabilities: Option<Vec<AmqpSymbol>>,
    /// The link properties.
    pub properties: Option<AmqpOrderedMap<AmqpSymbol, AmqpValue>>,
    /// The buffer size.
    pub buffer_size: Option<usize>,
    /// The role of the link.
    pub role: Option<AmqpValue>,
    /// The initial delivery count.
    pub initial_delivery_count: Option<u32>,
    /// The largest message size.
    pub max_message_size: Option<u64>,
}

/// AmqpSenderOptions with nothing set.
pub open spec fn no_sender_options() -> AmqpSenderOptions {
    AmqpSenderOptions {
        name: None,
        sender_settle_mode: None,
        receiver_settle_mode: None,
        source: None,
        offered_capabilities: None,
        desired_capabilities: None,
        properties: None,
        buffer_size: None,
        role: None,
        initial_delivery_count: None,
        max_message_size: None,
    }
}

impl AmqpSenderOptions {
    /// A builder with nothing set.
    pub fn builder() -> (r: AmqpSenderOptionsBuilder)
        ensures
            r.pending() == no_sender_options(),
    {
        AmqpSenderOptionsBuilder::new()
    }
}

/// Builds [`AmqpSenderOptions`].
pub struct AmqpSenderOptionsBuilder {
    options: AmqpSenderOptions,
}

impl AmqpSenderOptionsBuilder {
    /// The options that `build` will hand back.
    pub closed spec fn pending(&self) -> AmqpSenderOptions {
        self.options
    }

    /// A builder with nothing set.
    pub fn new() -> (r: Self)
        ensures
            r.pending() == no_sender_options(),
    {
        AmqpSenderOptionsBuilder {
            options: AmqpSenderOptions {
                name: None,
                sender_settle_mode: None,
                receiver_settle_mode: None,
                source: None,
                offered_capabilities: None,
                desired_capabilities: None,
                properties: None,
                buffer_size: None,
                role: None,
                initial_delivery_count: None,
                max_message_size: None,
            },
        }
    }

    /// Sets `name`.
    pub fn with_name(self, name: String) -> (r: Self)
        ensures
            r.pending() == (AmqpSenderOptions { name: Some(name), ..self.pending() }),
    {
        let mut b = self;
        b.options.name = Some(name);
        b
    }

    /// Sets `sender_settle_mode`.
    pub fn with_sender_settle_mode(self, sender_settle_mode: SenderSettleMode) -> (r: Self)
        ensures
            r.pending() == (AmqpSenderOptions { sender_settle_mode: Some(sender_settle_mode), ..self.pending() }),
    {
        let mut b = self;
        b.options.sender_settle_mode = Some(sender_settle_mode);
        b
    }

    /// Sets `receiver_settle_mode`.
    pub fn with_receiver_settle_mode(self, receiver_settle_mode: ReceiverSettleMode) -> (r: Self)
        ensures
            r.pending() == (AmqpSenderOptions { receiver_settle_mode: Some(receiver_settle_mode), ..self.pending() }),
    {
        let mut b = self;
        b.options.receiver_settle_mode = Some(receiver_settle_mode);
        b
    }

    /// Sets `source`.
    pub fn with_source(self, source: AmqpSource) -> (r: Self)
        ensures
            r.pending() == (AmqpSenderOptions { source: Some(source), ..self.pending() }),
    {
        let mut b = self;
        b.options.source = Some(source);
        b
    }

    /// Sets `offered_capabilities`.
    pub fn with_offered_capabilities(self, offered_capabilities: Vec<AmqpSymbol>) -> (r: Self)
        ensures
            r.pending() == (AmqpSenderOptions { offered_capabilities: Some(offered_capabilities), ..self.pending() }),
    {
        let mut b = self;
        b.options.offered_capabilities = Some(offered_capabilities);
        b
    }

    /// Sets `desired_capabilities`.
    pub fn with_desired_capabilities(self, desired_capabilities: Vec<AmqpSymbol>) -> (r: Self)
        ensures
            r.pending() == (AmqpSenderOptions { desired_capabilities: Some(desired_capabilities), ..self.pending() }),
    {
        let mut b = self;
        b.options.desired_capabilities = Some(desired_capabilities);
        b
    }

    /// Sets the properties: each (name, value) pair as a symbol and a string value,
    /// in order.
    pub fn with_properties(self, properties: Vec<(&str, &str)>) -> (r: Self)
        ensures
            r.pending().properties matches Some(m) && properties_from(properties@, m@),
            r.pending() == (AmqpSenderOptions { properties: r.pending().properties, ..self.pending() }),
    {
        let mut b = self;
        b.options.properties = Some(properties_from_pairs(properties));
        b
    }

    /// Sets `buffer_size`.
    pub fn with_buffer_size(self, buffer_size: usize) -> (r: Self)
        ensures
            r.pending() == (AmqpSenderOptions { buffer_size: Some(buffer_size), ..self.pending() }),
    {
        let mut b = self;
        b.options.buffer_size = Some(buffer_size);
        b
    }

    /// Sets `role`.
    pub fn with_role(self, role: AmqpValue) -> (r: Self)
        ensures
            r.pending() == (AmqpSenderOptions { role: Some(role), ..self.pending() }),
    {
        let mut b = self;
        b.options.role = Some(role);
        b
    }

    /// Sets `initial_delivery_count`.
    pub fn with_initial_delivery_count(self, initial_delivery_count: u32) -> (r: Self)
        ensures
            r.pending() == (AmqpSenderOptions { initial_delivery_count: Some(initial_delivery_count), ..self.pending() }),
    {
        let mut b = self;
        b.options.initial_delivery_count = Some(initial_delivery_count);
        b
    }

    /// Sets `max_message_size`.
    pub fn with_max_message_size(self, max_message_size: u64) -> (r: Self)
        ensures
            r.pending() == (AmqpSenderOptions { max_message_size: Some(max_message_size), ..self.pending() }),
    {
        let mut b = self;
        b.options.max_message_size = Some(max_message_size);
        b
    }

    /// The options set so far.
    pub fn build(self) -> (r: AmqpSenderOptions)
        ensures
            r == self.pending(),
    {
        self.options
    }
}

} // verus!
