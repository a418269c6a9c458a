//! Options of an AMQP session.
use super::{properties_from, properties_from_pairs};
use crate::value::{AmqpOrderedMap, AmqpSymbol, AmqpValue};
use vstd::prelude::*;

verus! {
/// The options of an AMQP session.
#[derive(Debug)]
pub struct AmqpSessionOptions {
    /// The first outgoing transfer id.
    pub next_outgoing_id: Option<u32>,
    /// The incoming window.
    pub incoming_window: Option<u32>,
    /// The outgoing window.
    pub outgoing_window: Option<u32>,
    /// The highest link handle.
    pub handle_max: Option<u32>,
    /// The capabilities offered.
    pub offered_capabilities: Option<Vec<AmqpSymbol>>,
    /// The capabilities desired.
    pub desired_capabilities: Option<Vec<AmqpSymbol>>,
    /// The session properties.
    pub properties: Option<AmqpOrderedMap<AmqpSymbol, AmqpValue>>,
    /// The buffer size.
    pub buffer_size: Option<usize>,
}

/// AmqpSessionOptions with nothing set.
pub open spec fn no_session_options() -> AmqpSessionOptions {
    AmqpSessionOptions {
        next_outgoing_id: None,
        incoming_window: None,
        outgoing_window: None,
        handle_max: None,
        offered_capabilities: None,
        desired_capabilities: None,
        properties: None,
        buffer_size: None,
    }
}

impl AmqpSessionOptions {
    /// A builder with nothing set.
    pub fn builder() -> (r: AmqpSessionOptionsBuilder)
        ensures
            r.pending() == no_session_options(),
    {
        AmqpSessionOptionsBuilder::new()
    }
}

/// Builds [`AmqpSessionOptions`].
pub struct AmqpSessionOptionsBuilder {
    options: AmqpSessionOptions,
}

impl AmqpSessionOptionsBuilder {
    /// The options that `build` will hand back.
    pub closed spec fn pending(&self) -> AmqpSessionOptions {
        self.options
    }

    /// A builder with nothing set.
    pub fn new() -> (r: Self)
        ensures
            r.pending() == no_session_options(),
    {
        AmqpSessionOptionsBuilder {
            options: AmqpSessionOptions {
                next_outgoing_id: None,
                incoming_window: None,
                outgoing_window: None,
                handle_max: None,
                offered_capabilities: None,
                desired_capabilities: None,
                properties: None,
                buffer_size: None,
            },
        }
    }

    /// Sets `next_outgoing_id`.
    pub fn with_next_outgoing_id(self, next_outgoing_id: u32) -> (r: Self)
        ensures
            r.pending() == (AmqpSessionOptions { next_outgoing_id: Some(next_outgoing_id), ..self.pending() }),
    {
        let mut b = self;
        b.options.next_outgoing_id = Some(next_outgoing_id);
        b
    }

    /// Sets `incoming_window`.
    pub fn with_incoming_window(self, incoming_window: u32) -> (r: Self)
        ensures
            r.pending() == (AmqpSessionOptions { incoming_window: Some(incoming_window), ..self.pending() }),
    {
        let mut b = self;
        b.options.incoming_window = Some(incoming_window);
        b
    }

    /// Sets `outgoing_window`.
    pub fn with_outgoing_window(self, outgoing_window: u32) -> (r: Self)
        ensures
            r.pending() == (AmqpSessionOptions { outgoing_window: Some(outgoing_window), ..self.pending() }),
    {
        let mut b = self;
        b.options.outgoing_window = Some(outgoing_window);
        b
    }

    /// Sets `handle_max`.
    pub fn with_handle_max(self, handle_max: u32) -> (r: Self)
        ensures
            r.pending() == (AmqpSessionOptions { handle_max: Some(handle_max), ..self.pending() }),
    {
        let mut b = self;
        b.options.handle_max = Some(handle_max);
        b
    }

    /// Sets `offered_capabilities`.
    pub fn with_offered_capabilities(self, offered_capabilities: Vec<AmqpSymbol>) -> (r: Self)
        ensures
            r.pending() == (AmqpSessionOptions { offered_capabilities: Some(offered_capabilities), ..self.pending() }),
    {
        let mut b = self;
        b.options.offered_capabilities = Some(offered_capabilities);
        b
    }

    /// Sets `desired_capabilities`.
    pub fn with_desired_capabilities(self, desired_capabilities: Vec<AmqpSymbol>) -> (r: Self)
        ensures
            r.pending() == (AmqpSessionOptions { desired_capabilities: Some(desired_capabilities), ..self.pending() }),
    {
        let mut b = self;
        b.options.desired_capabilities = Some(desired_capabilities);
        b
    }

    /// Sets the properties: each (name, value) pair as a symbol and a string value,
    /// in order.
    pub fn with_properties(self, properties: Vec<(&str, &str)>) -> (r: Self)
        ensures
            r.pending().properties matches Some(m) && properties_from(properties@, m@),
            r.pending() == (AmqpSessionOptions { properties: r.pending().properties, ..self.pending() }),
    {
        let mut b = self;
        b.options.properties = Some(properties_from_pairs(properties));
        b
    }

    /// Sets `buffer_size`.
    pub fn with_buffer_size(self, buffer_size: usize) -> (r: Self)
        ensures
            r.pending() == (AmqpSessionOptions { buffer_size: Some(buffer_size), ..self.pending() }),
    {
        let mut b = self;
        b.options.buffer_size = Some(buffer_size);
        b
    }

    /// The options set so far.
    pub fn build(self) -> (r: AmqpSessionOptions)
        ensures
            r == self.pending(),
    {
        self.options
    }
}

} // verus!
